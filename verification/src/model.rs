//! The document tree produced by the parser.
//!
//! A `Neww` value is the root of a parsed document: a `Meta` section
//! holding scripts and an `Interface` section holding the window
//! objects.  Each exec type has a ghost counterpart (its deep view)
//! over `Seq` and `Option`, which the parser's and serializer's
//! contracts speak of.

use vstd::prelude::*;

verus! {

/// Ghost view of a property: a name/value pair of character sequences.
#[verifier::ext_equal]
pub ghost struct PropertyV {
    pub name: Seq<char>,
    pub value: Seq<char>,
}

/// Ghost view of an object: one widget node of the parsed tree.
#[verifier::ext_equal]
pub ghost struct ObjectV {
    pub id: Option<Seq<char>>,
    pub class: Seq<char>,
    pub properties: Seq<PropertyV>,
    pub children: Seq<ObjectV>,
}

/// Ghost view of a script.
#[verifier::ext_equal]
pub ghost enum ScriptV {
    Inline(Seq<char>),
    SourcePath(Seq<char>),
}

/// Ghost view of the meta section.
#[verifier::ext_equal]
pub ghost struct MetaV {
    pub scripts: Seq<ScriptV>,
}

/// Ghost view of the interface section.
#[verifier::ext_equal]
pub ghost struct InterfaceV {
    pub windows: Seq<ObjectV>,
}

/// Ghost view of a whole document.
#[verifier::ext_equal]
pub ghost struct NewwV {
    pub meta: MetaV,
    pub interface: InterfaceV,
}

/// A name/value pair attached to an object, in document order.
#[derive(Debug, Clone, PartialEq, Eq)]
pub struct Property {
    pub name: String,
    pub value: String,
}

/// A wrapper owning exactly one nested object.
#[derive(Debug, PartialEq, Eq)]
pub struct Child {
    pub object: Object,
}

/// One widget/window node of the parsed tree.
#[derive(Debug, PartialEq, Eq)]
pub struct Object {
    pub id: Option<String>,
    pub class: String,
    pub properties: Vec<Property>,
    pub children: Vec<Child>,
}

/// A script attachment: either an inline body or a path to a source file.
///
/// The parser only records a `SourcePath`; reading the referenced file
/// is the caller's responsibility.
#[derive(Debug, Clone, PartialEq, Eq)]
pub enum Script {
    Inline(String),
    SourcePath(String),
}

/// The meta section: an ordered sequence of scripts.
#[derive(Debug, Clone, PartialEq, Eq)]
pub struct Meta {
    pub scripts: Vec<Script>,
}

/// The interface section: the ordered sequence of top-level windows.
#[derive(Debug, PartialEq, Eq)]
pub struct Interface {
    pub windows: Vec<Object>,
}

/// The root of a parsed document.
#[derive(Debug, PartialEq, Eq)]
pub struct Neww {
    pub meta: Meta,
    pub interface: Interface,
}

impl DeepView for Property {
    type V = PropertyV;

    open spec fn deep_view(&self) -> PropertyV {
        PropertyV { name: self.name.deep_view(), value: self.value.deep_view() }
    }
}

impl Object {
    /// The ghost tree this object stands for, children mapped recursively.
    pub open spec fn model(&self) -> ObjectV
        decreases self,
        via Self::model_decreases
    {
        ObjectV {
            id: self.id.deep_view(),
            class: self.class.deep_view(),
            properties: self.properties.deep_view(),
            children: Seq::new(
                self.children@.len(),
                // The range guard keeps the recursion well-founded; no
                // index outside the range is ever used by the sequence.
                |i: int|
                    if 0 <= i < self.children@.len() {
                        self.children@[i].object.model()
                    } else {
                        ObjectV {
                            id: None,
                            class: Seq::empty(),
                            properties: Seq::empty(),
                            children: Seq::empty(),
                        }
                    },
            ),
        }
    }

    #[via_fn]
    proof fn model_decreases(&self) {
        assert forall|i: int| 0 <= i < self.children@.len() implies (decreases_to!(self =>
        self.children@[i].object)) by {
            assert(decreases_to!(self => self.children));
            assert(decreases_to!(self.children => self.children@[i]));
            assert(decreases_to!(self.children@[i] => self.children@[i].object));
        }
    }
}

impl DeepView for Object {
    type V = ObjectV;

    open spec fn deep_view(&self) -> ObjectV {
        self.model()
    }
}

impl DeepView for Child {
    type V = ObjectV;

    open spec fn deep_view(&self) -> ObjectV {
        self.object.model()
    }
}

impl DeepView for Script {
    type V = ScriptV;

    open spec fn deep_view(&self) -> ScriptV {
        match self {
            Script::Inline(s) => ScriptV::Inline(s.deep_view()),
            Script::SourcePath(p) => ScriptV::SourcePath(p.deep_view()),
        }
    }
}

impl DeepView for Meta {
    type V = MetaV;

    open spec fn deep_view(&self) -> MetaV {
        MetaV { scripts: self.scripts.deep_view() }
    }
}

impl DeepView for Interface {
    type V = InterfaceV;

    open spec fn deep_view(&self) -> InterfaceV {
        InterfaceV { windows: self.windows.deep_view() }
    }
}

impl DeepView for Neww {
    type V = NewwV;

    open spec fn deep_view(&self) -> NewwV {
        NewwV { meta: self.meta.deep_view(), interface: self.interface.deep_view() }
    }
}

impl Script {
    /// The script body that needs no I/O to resolve: the inline text,
    /// or nothing for a source-path reference.
    pub fn inline_body(&self) -> (r: Option<String>)
        ensures
            (match self.deep_view() {
                ScriptV::Inline(s) => r matches Some(t) && t@ == s,
                ScriptV::SourcePath(_) => r is None,
            }),
    {
        match self {
            Script::Inline(s) => Some(s.clone()),
            Script::SourcePath(_) => None,
        }
    }

    /// The path of an externally referenced script, to be read by the
    /// caller at a moment of its choice; nothing for an inline body.
    pub fn source_path(&self) -> (r: Option<String>)
        ensures
            (match self.deep_view() {
                ScriptV::Inline(_) => r is None,
                ScriptV::SourcePath(p) => r matches Some(t) && t@ == p,
            }),
    {
        match self {
            Script::Inline(_) => None,
            Script::SourcePath(p) => Some(p.clone()),
        }
    }
}

impl Default for Meta {
    /// An empty meta section, used when a document has no `meta` tag.
    fn default() -> (r: Meta)
        ensures
            r.deep_view().scripts =~= Seq::<ScriptV>::empty(),
    {
        Meta { scripts: Vec::new() }
    }
}

impl Default for Interface {
    /// An empty interface section, used when a document has no `interface` tag.
    fn default() -> (r: Interface)
        ensures
            r.deep_view().windows =~= Seq::<ObjectV>::empty(),
    {
        Interface { windows: Vec::new() }
    }
}

} // verus!
