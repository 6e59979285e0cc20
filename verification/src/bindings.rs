//! The Rust source text that a code generation run writes beside the
//! generated code, and the choices it makes on the way there.

use crate::text::{join, joined, replace_char, replaced, split, split_on};
use vstd::prelude::*;
use vstd::string::StringExecFns;

verus! {

/// One schema file as the compiler describes it: its name, the package it
/// declares, and the names of its top-level message types.
#[derive(Debug)]
pub struct ProtoFile {
    pub name: String,
    pub package: String,
    pub message_types: Vec<String>,
}

/// What a [`ProtoFile`] stands for.
pub struct ProtoFileView {
    pub name: Seq<char>,
    pub package: Seq<char>,
    pub message_types: Seq<Seq<char>>,
}

impl View for ProtoFile {
    type V = ProtoFileView;

    open spec fn view(&self) -> ProtoFileView {
        ProtoFileView {
            name: self.name@,
            package: self.package@,
            message_types: self.message_types.deep_view(),
        }
    }
}

impl DeepView for ProtoFile {
    type V = ProtoFileView;

    open spec fn deep_view(&self) -> ProtoFileView {
        self@
    }
}

impl Clone for ProtoFile {
    fn clone(&self) -> (copy: Self)
        ensures
            copy@ == self@,
    {
        let message_types = self.message_types.clone();
        ProtoFile { name: self.name.clone(), package: self.package.clone(), message_types }
    }
}

/// The name of the Rust module that stands for a crate called `crate_name`:
/// the name with `_` for every `-`.
pub open spec fn crate_module_name_of(crate_name: Seq<char>) -> Seq<char> {
    replaced(crate_name, '-', '_')
}

/// The name of the Rust module that stands for a crate called `crate_name`.
pub fn crate_module_name(crate_name: &str) -> (name: String)
    ensures
        name@ == crate_module_name_of(crate_name@),
{
    replace_char(crate_name, '-', '_')
}

/// The name of the Rust module that stands for one segment of a package
/// name: the segment with `_` for every `-`, and `r#type` for `type`, which
/// is a keyword.
pub open spec fn module_segment_of(segment: Seq<char>) -> Seq<char> {
    let name = replaced(segment, '-', '_');
    if name == "type"@ {
        "r#type"@
    } else {
        name
    }
}

/// The path of the Rust module that stands for the package `package_name`:
/// the modules of its segments, which `.` parts, with `::` between them.
pub open spec fn package_module_of(package_name: Seq<char>) -> Seq<char> {
    joined(split(package_name, '.').map_values(|segment| module_segment_of(segment)), "::"@)
}

/// The path of the Rust module that stands for the package `package_name`.
pub fn package_module(package_name: &str) -> (path: String)
    ensures
        path@ == package_module_of(package_name@),
{
    let segments = split_on(package_name, '.');
    let keyword = "type".to_owned();
    let mut modules: Vec<String> = Vec::new();
    let mut i: usize = 0;
    while i < segments.len()
        invariant
            i <= segments.len(),
            keyword@ == "type"@,
            modules.deep_view() == segments.deep_view().take(i as int).map_values(
                |segment| module_segment_of(segment),
            ),
        decreases segments.len() - i,
    {
        let name = replace_char(segments[i].as_str(), '-', '_');
        let module = if name == keyword {
            "r#type".to_owned()
        } else {
            name
        };
        let ghost before = modules.deep_view();
        modules.push(module);
        assert(modules.deep_view() =~= before.push(module@));
        i = i + 1;
    }
    assert(segments.deep_view().take(segments.len() as int) =~= segments.deep_view());
    join(&modules, "::")
}

/// Where a message type called `message_name` of the package `package_name`
/// is found, in the schema and in Rust, when the code generated for the
/// package stands in the module `mod_name` of the crate whose module is
/// `crate_mod_name`, below the module path `module_name`.
pub open spec fn extern_path_of(
    package_name: Seq<char>,
    message_name: Seq<char>,
    crate_mod_name: Seq<char>,
    mod_name: Seq<char>,
    module_name: Seq<char>,
) -> (Seq<char>, Seq<char>) {
    (
        "."@ + package_name + "."@ + message_name,
        "::"@ + crate_mod_name + "::"@ + mod_name + "::"@ + module_name + "::"@ + message_name,
    )
}

/// The line of Rust source that lists one message type among the types that
/// other crates may take from this one.
pub open spec fn extern_entry_of(
    package_name: Seq<char>,
    message_name: Seq<char>,
    crate_mod_name: Seq<char>,
    mod_name: Seq<char>,
    module_name: Seq<char>,
) -> Seq<char> {
    "        appbiotic_code::ExternPath { proto_path: \"."@ + package_name + "."@ + message_name
        + "\", rust_path: \"::"@ + crate_mod_name + "::"@ + mod_name + "::"@ + module_name
        + "::"@ + message_name + "\" },\n"@
}

/// Writes the line that lists one message type.
pub fn extern_entry(
    package_name: &str,
    message_name: &str,
    crate_mod_name: &str,
    mod_name: &str,
    module_name: &str,
) -> (line: String)
    ensures
        line@ == extern_entry_of(
            package_name@,
            message_name@,
            crate_mod_name@,
            mod_name@,
            module_name@,
        ),
{
    let mut line = "        appbiotic_code::ExternPath { proto_path: \".".to_owned();
    line.append(package_name);
    line.append(".");
    line.append(message_name);
    line.append("\", rust_path: \"::");
    line.append(crate_mod_name);
    line.append("::");
    line.append(mod_name);
    line.append("::");
    line.append(module_name);
    line.append("::");
    line.append(message_name);
    line.append("\" },\n");
    line
}

/// The Rust source that gives one message type its name and its package.
pub open spec fn name_impl_of(
    module_name: Seq<char>,
    message_name: Seq<char>,
    package_name: Seq<char>,
) -> Seq<char> {
    "\nimpl prost::Name for "@ + module_name + "::"@ + message_name
        + " {\n    const NAME: &'static str = \""@ + message_name
        + "\";\n    const PACKAGE: &'static str = \""@ + package_name + "\";\n}\n"@
}

/// Writes the source that gives one message type its name and its package.
pub fn name_impl(module_name: &str, message_name: &str, package_name: &str) -> (source: String)
    ensures
        source@ == name_impl_of(module_name@, message_name@, package_name@),
{
    let mut source = "\nimpl prost::Name for ".to_owned();
    source.append(module_name);
    source.append("::");
    source.append(message_name);
    source.append(" {\n    const NAME: &'static str = \"");
    source.append(message_name);
    source.append("\";\n    const PACKAGE: &'static str = \"");
    source.append(package_name);
    source.append("\";\n}\n");
    source
}

/// The texts that `item` gives for the elements of `items`, one after
/// another.
pub open spec fn concatenated<T>(items: Seq<T>, item: spec_fn(T) -> Seq<char>) -> Seq<char>
    decreases items.len(),
{
    if items.len() == 0 {
        Seq::empty()
    } else {
        concatenated(items.drop_last(), item) + item(items.last())
    }
}

/// The lines that list the message types of one schema file.
pub open spec fn extern_entries_of_file(
    file: ProtoFileView,
    crate_mod_name: Seq<char>,
    mod_name: Seq<char>,
) -> Seq<char> {
    concatenated(
        file.message_types,
        |message_name: Seq<char>|
            extern_entry_of(
                file.package,
                message_name,
                crate_mod_name,
                mod_name,
                package_module_of(file.package),
            ),
    )
}

/// The Rust source of the function that lists every message type of `files`
/// as a type that other crates may take from the crate called `crate_name`,
/// whose generated code stands in its module `mod_name`.
pub open spec fn externs_source_of(
    files: Seq<ProtoFileView>,
    crate_name: Seq<char>,
    mod_name: Seq<char>,
) -> Seq<char> {
    "pub fn externs() -> Vec<appbiotic_code::ExternPath> {\n    vec![\n"@ + concatenated(
        files,
        |file: ProtoFileView|
            extern_entries_of_file(file, crate_module_name_of(crate_name), mod_name),
    ) + "    ]\n}\n"@
}

/// Writes the source of the function that lists the message types of `files`.
pub fn externs_source(files: &Vec<ProtoFile>, crate_name: &str, mod_name: &str) -> (source: String)
    ensures
        source@ == externs_source_of(files.deep_view(), crate_name@, mod_name@),
{
    let crate_mod_name = crate_module_name(crate_name);
    let ghost of_file = |file: ProtoFileView|
        extern_entries_of_file(file, crate_module_name_of(crate_name@), mod_name@);
    let ghost head = "pub fn externs() -> Vec<appbiotic_code::ExternPath> {\n    vec![\n"@;
    let mut source = "pub fn externs() -> Vec<appbiotic_code::ExternPath> {\n    vec![\n".to_owned();
    let mut i: usize = 0;
    while i < files.len()
        invariant
            i <= files.len(),
            crate_mod_name@ == crate_module_name_of(crate_name@),
            of_file == |file: ProtoFileView|
                extern_entries_of_file(file, crate_module_name_of(crate_name@), mod_name@),
            head == "pub fn externs() -> Vec<appbiotic_code::ExternPath> {\n    vec![\n"@,
            source@ == head + concatenated(files.deep_view().take(i as int), of_file),
        decreases files.len() - i,
    {
        let file = &files[i];
        let module_name = package_module(file.package.as_str());
        let ghost of_message = |message_name: Seq<char>|
            extern_entry_of(
                file@.package,
                message_name,
                crate_module_name_of(crate_name@),
                mod_name@,
                package_module_of(file@.package),
            );
        let ghost before = source@;
        let mut j: usize = 0;
        while j < file.message_types.len()
            invariant
                j <= file.message_types.len(),
                crate_mod_name@ == crate_module_name_of(crate_name@),
                module_name@ == package_module_of(file@.package),
                of_message == |message_name: Seq<char>|
                    extern_entry_of(
                        file@.package,
                        message_name,
                        crate_module_name_of(crate_name@),
                        mod_name@,
                        package_module_of(file@.package),
                    ),
                source@ == before + concatenated(file@.message_types.take(j as int), of_message),
            decreases file.message_types.len() - j,
        {
            let line = extern_entry(
                file.package.as_str(),
                file.message_types[j].as_str(),
                crate_mod_name.as_str(),
                mod_name,
                module_name.as_str(),
            );
            source.append(line.as_str());
            proof {
                let done = file@.message_types.take(j as int);
                let next = file@.message_types.take(j + 1);
                assert(next.drop_last() =~= done);
            }
            j = j + 1;
        }
        proof {
            assert(file@.message_types.take(file.message_types.len() as int)
                =~= file@.message_types);
            let done = files.deep_view().take(i as int);
            let next = files.deep_view().take(i + 1);
            assert(next.drop_last() =~= done);
        }
        i = i + 1;
    }
    assert(files.deep_view().take(files.len() as int) =~= files.deep_view());
    source.append("    ]\n}\n");
    source
}

/// The source that gives the message types of one schema file their names.
pub open spec fn name_impls_of_file(file: ProtoFileView) -> Seq<char> {
    concatenated(
        file.message_types,
        |message_name: Seq<char>|
            name_impl_of(package_module_of(file.package), message_name, file.package),
    )
}

/// The Rust source that gives every message type of `files` its name and
/// its package, behind one line of comment.
pub open spec fn names_source_of(files: Seq<ProtoFileView>) -> Seq<char> {
    "// Remove the Name implementations after https://github.com/tokio-rs/prost/issues/921\n"@
        + concatenated(files, |file: ProtoFileView| name_impls_of_file(file))
}

/// Writes the source that gives the message types of `files` their names.
pub fn names_source(files: &Vec<ProtoFile>) -> (source: String)
    ensures
        source@ == names_source_of(files.deep_view()),
{
    let ghost of_file = |file: ProtoFileView| name_impls_of_file(file);
    let ghost head =
        "// Remove the Name implementations after https://github.com/tokio-rs/prost/issues/921\n"@;
    let mut source =
        "// Remove the Name implementations after https://github.com/tokio-rs/prost/issues/921\n".to_owned();
    let mut i: usize = 0;
    while i < files.len()
        invariant
            i <= files.len(),
            of_file == |file: ProtoFileView| name_impls_of_file(file),
            source@ == head + concatenated(files.deep_view().take(i as int), of_file),
        decreases files.len() - i,
    {
        let file = &files[i];
        let module_name = package_module(file.package.as_str());
        let ghost of_message = |message_name: Seq<char>|
            name_impl_of(package_module_of(file@.package), message_name, file@.package);
        let ghost before = source@;
        let mut j: usize = 0;
        while j < file.message_types.len()
            invariant
                j <= file.message_types.len(),
                module_name@ == package_module_of(file@.package),
                of_message == |message_name: Seq<char>|
                    name_impl_of(package_module_of(file@.package), message_name, file@.package),
                source@ == before + concatenated(file@.message_types.take(j as int), of_message),
            decreases file.message_types.len() - j,
        {
            let part = name_impl(
                module_name.as_str(),
                file.message_types[j].as_str(),
                file.package.as_str(),
            );
            source.append(part.as_str());
            proof {
                let done = file@.message_types.take(j as int);
                let next = file@.message_types.take(j + 1);
                assert(next.drop_last() =~= done);
            }
            j = j + 1;
        }
        proof {
            assert(file@.message_types.take(file.message_types.len() as int)
                =~= file@.message_types);
            let done = files.deep_view().take(i as int);
            let next = files.deep_view().take(i + 1);
            assert(next.drop_last() =~= done);
        }
        i = i + 1;
    }
    assert(files.deep_view().take(files.len() as int) =~= files.deep_view());
    source
}

/// Whether `list` holds `text`.
fn holds(list: &Vec<String>, text: &String) -> (found: bool)
    ensures
        found == list.deep_view().contains(text@),
{
    let mut i: usize = 0;
    while i < list.len()
        invariant
            i <= list.len(),
            !list.deep_view().take(i as int).contains(text@),
        decreases list.len() - i,
    {
        if list[i] == *text {
            assert(list.deep_view()[i as int] == text@);
            return true;
        }
        proof {
            let done = list.deep_view().take(i as int);
            let next = list.deep_view().take(i + 1);
            if next.contains(text@) {
                let j = choose|j: int| 0 <= j < next.len() && next[j] == text@;
                assert(j < i ==> done[j] == text@);
            }
        }
        i = i + 1;
    }
    assert(list.deep_view().take(list.len() as int) =~= list.deep_view());
    false
}

/// The files of `files` whose names are among `proto_files`, in their order.
/// The compiler describes the imported files too; these are the ones that
/// were asked for.
pub open spec fn listed_files_of(
    files: Seq<ProtoFileView>,
    proto_files: Seq<Seq<char>>,
) -> Seq<ProtoFileView> {
    files.filter(|file: ProtoFileView| proto_files.contains(file.name))
}

/// Picks the files whose names are, letter for letter, among `proto_files`.
pub fn listed_files(files: &Vec<ProtoFile>, proto_files: &Vec<String>) -> (listed: Vec<ProtoFile>)
    ensures
        listed.deep_view() == listed_files_of(files.deep_view(), proto_files.deep_view()),
{
    let ghost wanted = |file: ProtoFileView| proto_files.deep_view().contains(file.name);
    let mut listed: Vec<ProtoFile> = Vec::new();
    let mut i: usize = 0;
    while i < files.len()
        invariant
            i <= files.len(),
            wanted == |file: ProtoFileView| proto_files.deep_view().contains(file.name),
            listed.deep_view() == files.deep_view().take(i as int).filter(wanted),
        decreases files.len() - i,
    {
        proof {
            reveal(Seq::filter);
            let done = files.deep_view().take(i as int);
            let next = files.deep_view().take(i + 1);
            assert(next.drop_last() =~= done);
        }
        if holds(proto_files, &files[i].name) {
            listed.push(files[i].clone());
        }
        i = i + 1;
    }
    assert(files.deep_view().take(files.len() as int) =~= files.deep_view());
    listed
}

/// The path at which the compiler is given the schema file `proto_file`,
/// which lies below `include_dir`.
pub open spec fn proto_file_path_of(include_dir: Seq<char>, proto_file: Seq<char>) -> Seq<char> {
    include_dir + "/"@ + proto_file
}

/// The texts of `items` in the order in which each comes first; what has
/// come before is left out.
pub open spec fn without_repeats(items: Seq<Seq<char>>) -> Seq<Seq<char>>
    decreases items.len(),
{
    if items.len() == 0 {
        Seq::empty()
    } else {
        let before = without_repeats(items.drop_last());
        if before.contains(items.last()) {
            before
        } else {
            before.push(items.last())
        }
    }
}

/// Leaving the repeats out leaves every text in once: no text comes twice,
/// and a text comes if and only if it came before.
pub proof fn without_repeats_holds_each_once(items: Seq<Seq<char>>)
    ensures
        without_repeats(items).no_duplicates(),
        forall|text: Seq<char>| without_repeats(items).contains(text) <==> items.contains(text),
    decreases items.len(),
{
    let kept = without_repeats(items);
    if items.len() > 0 {
        let shorter = items.drop_last();
        let before = without_repeats(shorter);
        without_repeats_holds_each_once(shorter);
        assert forall|text: Seq<char>| kept.contains(text) <==> items.contains(text) by {
            if items.contains(text) {
                let j = choose|j: int| 0 <= j < items.len() && items[j] == text;
                if j < shorter.len() {
                    assert(shorter[j] == text);
                    assert(shorter.contains(text));
                    let k = choose|k: int| 0 <= k < before.len() && before[k] == text;
                    assert(kept[k] == text);
                } else if !before.contains(text) {
                    assert(kept[kept.len() - 1] == text);
                }
            }
            if kept.contains(text) {
                let k = choose|k: int| 0 <= k < kept.len() && kept[k] == text;
                if k < before.len() {
                    assert(before[k] == text);
                    assert(shorter.contains(text));
                    let j = choose|j: int| 0 <= j < shorter.len() && shorter[j] == text;
                    assert(items[j] == text);
                } else {
                    assert(items.last() == text);
                }
            }
        }
    }
}

/// The paths at which the compiler is given the schema files `proto_files`,
/// which lie below `include_dir`: one for each file, each once, in the order
/// in which the files are first named.
pub open spec fn proto_file_paths_of(
    include_dir: Seq<char>,
    proto_files: Seq<Seq<char>>,
) -> Seq<Seq<char>> {
    without_repeats(
        proto_files.map_values(|proto_file| proto_file_path_of(include_dir, proto_file)),
    )
}

/// Lists the paths at which the compiler is given the schema files.
pub fn proto_file_paths(include_dir: &str, proto_files: &Vec<String>) -> (paths: Vec<String>)
    ensures
        paths.deep_view() == proto_file_paths_of(include_dir@, proto_files.deep_view()),
{
    let ghost all = proto_files.deep_view().map_values(
        |proto_file| proto_file_path_of(include_dir@, proto_file),
    );
    let mut paths: Vec<String> = Vec::new();
    let mut i: usize = 0;
    while i < proto_files.len()
        invariant
            i <= proto_files.len(),
            all == proto_files.deep_view().map_values(
                |proto_file| proto_file_path_of(include_dir@, proto_file),
            ),
            paths.deep_view() == without_repeats(all.take(i as int)),
        decreases proto_files.len() - i,
    {
        let mut path = include_dir.to_owned();
        path.append("/");
        path.append(proto_files[i].as_str());
        proof {
            let done = all.take(i as int);
            let next = all.take(i + 1);
            assert(next.drop_last() =~= done);
        }
        if !holds(&paths, &path) {
            paths.push(path);
        }
        i = i + 1;
    }
    assert(all.take(proto_files.len() as int) =~= all);
    paths
}

/// Lists the directories in which the compiler looks imports up: those of
/// `import_paths` in their order and `include_dir` last, so that a file of
/// the same name in an import path is found first.
pub fn lookup_paths(import_paths: Vec<String>, include_dir: String) -> (paths: Vec<String>)
    ensures
        paths.deep_view() == import_paths.deep_view().push(include_dir@),
{
    let mut paths = import_paths;
    paths.push(include_dir);
    paths
}

} // verus!
