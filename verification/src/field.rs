//! Locators into a structured request: a path of properties, written out as
//! dotted and bracketed text.

use crate::text::{decimal, decimal_string, joined, joined_begins_with_first};
use vstd::prelude::*;
use vstd::string::StringExecFns;

verus! {

/// One step of a path.
#[derive(Debug)]
pub enum Property {
    Member { name: String },
    MapMember { name: String, key: String },
    ArrayMember { name: String, index: usize },
}

/// What a [`Property`] stands for.
pub enum PropertyView {
    Member { name: Seq<char> },
    MapMember { name: Seq<char>, key: Seq<char> },
    ArrayMember { name: Seq<char>, index: nat },
}

impl View for Property {
    type V = PropertyView;

    open spec fn view(&self) -> PropertyView {
        match *self {
            Property::Member { name } => PropertyView::Member { name: name@ },
            Property::MapMember { name, key } => PropertyView::MapMember { name: name@, key: key@ },
            Property::ArrayMember { name, index } => PropertyView::ArrayMember {
                name: name@,
                index: index as nat,
            },
        }
    }
}

impl DeepView for Property {
    type V = PropertyView;

    open spec fn deep_view(&self) -> PropertyView {
        self@
    }
}

impl Clone for Property {
    fn clone(&self) -> (copy: Self)
        ensures
            copy == *self,
    {
        match self {
            Property::Member { name } => Property::Member { name: name.clone() },
            Property::MapMember { name, key } => Property::MapMember {
                name: name.clone(),
                key: key.clone(),
            },
            Property::ArrayMember { name, index } => Property::ArrayMember {
                name: name.clone(),
                index: *index,
            },
        }
    }
}

/// The text of one property: `name`, `name["key"]` or `name[index]`.
pub open spec fn render_property(property: PropertyView) -> Seq<char> {
    match property {
        PropertyView::Member { name } => name,
        PropertyView::MapMember { name, key } => name + "[\""@ + key + "\"]"@,
        PropertyView::ArrayMember { name, index } => name + "["@ + decimal(index) + "]"@,
    }
}

/// The text of a path whose first element is the outermost one: the texts of
/// its properties in that order, with a `.` between neighbours.
pub open spec fn render_path(path: Seq<PropertyView>) -> Seq<char> {
    joined(path.map_values(|property: PropertyView| render_property(property)), "."@)
}

/// A path that stands inside a context is written behind it: first the
/// text of the context, then a `.`, then the text of the path.
pub proof fn context_is_written_first(context: PropertyView, path: Seq<PropertyView>)
    requires
        path.len() >= 1,
    ensures
        render_path(seq![context] + path) == render_property(context) + "."@ + render_path(path),
{
    let texts = path.map_values(|property: PropertyView| render_property(property));
    assert((seq![context] + path).map_values(|property: PropertyView| render_property(property))
        =~= seq![render_property(context)] + texts);
    joined_begins_with_first(render_property(context), texts, "."@);
}

/// A path of one property is written as that property, without a `.`.
pub proof fn single_property_is_written_alone(property: PropertyView)
    ensures
        render_path(seq![property]) == render_property(property),
{
}

impl Property {
    /// Writes the property out.
    pub fn to_string(&self) -> (text: String)
        ensures
            text@ == render_property(self@),
    {
        match self {
            Property::Member { name } => name.clone(),
            Property::MapMember { name, key } => {
                let mut text = name.clone();
                text.append("[\"");
                text.append(key.as_str());
                text.append("\"]");
                text
            },
            Property::ArrayMember { name, index } => {
                let mut text = name.clone();
                let digits = decimal_string(*index as u64);
                text.append("[");
                text.append(digits.as_str());
                text.append("]");
                text
            },
        }
    }
}

/// A path into a structured value. The innermost property is given first and
/// each enclosing context is added afterwards.
#[derive(Debug)]
pub struct Field {
    path_reversed: Vec<Property>,
}

impl View for Field {
    type V = Seq<PropertyView>;

    /// The path from the outermost property to the innermost one.
    closed spec fn view(&self) -> Seq<PropertyView> {
        self.path_reversed.deep_view().reverse()
    }
}

impl DeepView for Field {
    type V = Seq<PropertyView>;

    open spec fn deep_view(&self) -> Seq<PropertyView> {
        self@
    }
}

impl Clone for Field {
    fn clone(&self) -> (copy: Self)
        ensures
            copy@ == self@,
    {
        proof {
            use_type_invariant(self);
        }
        Field { path_reversed: self.path_reversed.clone() }
    }
}

impl Field {
    #[verifier::type_invariant]
    spec fn nonempty(self) -> bool {
        self.path_reversed.len() > 0
    }

    /// The path that consists of `property` alone.
    pub fn new(property: Property) -> (field: Field)
        ensures
            field@ == seq![property@],
    {
        let mut path_reversed = Vec::new();
        path_reversed.push(property);
        Field { path_reversed }
    }

    /// The path that consists of the member `name` alone.
    pub fn member(name: &str) -> (field: Field)
        ensures
            field@ == seq![PropertyView::Member { name: name@ }],
    {
        Field::new(Property::Member { name: name.to_owned() })
    }

    /// The path that consists of element `index` of the array `name` alone.
    pub fn array_member(name: &str, index: usize) -> (field: Field)
        ensures
            field@ == seq![PropertyView::ArrayMember { name: name@, index: index as nat }],
    {
        Field::new(Property::ArrayMember { name: name.to_owned(), index })
    }

    /// Places the path inside `context`, which becomes its outermost property.
    pub fn with_context(self, context: Property) -> (field: Field)
        ensures
            field@ == seq![context@] + self@,
    {
        let mut path_reversed = self.path_reversed;
        path_reversed.push(context);
        Field { path_reversed }
    }

    /// Places the path inside the member `name`.
    pub fn within_member(self, name: &str) -> (field: Field)
        ensures
            field@ == seq![PropertyView::Member { name: name@ }] + self@,
    {
        self.with_context(Property::Member { name: name.to_owned() })
    }

    /// Places the path inside element `index` of the array `name`.
    pub fn within_array_member(self, name: &str, index: usize) -> (field: Field)
        ensures
            field@ == seq![PropertyView::ArrayMember { name: name@, index: index as nat }] + self@,
    {
        self.with_context(Property::ArrayMember { name: name.to_owned(), index })
    }

    /// Writes the path out, outermost property first. A path has at least
    /// one property.
    pub fn to_string(&self) -> (text: String)
        ensures
            text@ == render_path(self@),
            self@.len() >= 1,
    {
        proof {
            use_type_invariant(self);
        }
        let mut text = String::new();
        let mut i: usize = self.path_reversed.len();
        let ghost path = self@;
        let ghost texts = path.map_values(|property: PropertyView| render_property(property));
        while i > 0
            invariant
                i <= self.path_reversed.len(),
                path == self@,
                path.len() == self.path_reversed.len(),
                texts == path.map_values(|property: PropertyView| render_property(property)),
                text@ == joined(texts.take(path.len() - i), "."@),
            decreases i,
        {
            i = i - 1;
            let ghost done = path.len() - i - 1;
            if i + 1 < self.path_reversed.len() {
                text.append(".");
            }
            let part = self.path_reversed[i].to_string();
            text.append(part.as_str());
            assert(texts.take(done + 1).drop_last() =~= texts.take(done));
        }
        assert(texts.take(path.len() as int) =~= texts);
        text
    }
}

} // verus!
