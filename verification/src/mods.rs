//! Module kinds and module configurations.
//!
//! Every transformation module the tool offers is identified by a
//! `WindowDiscriminants` value and configured by the matching
//! `WindowTypes` variant.  The Caster module's configuration carries the
//! assembled pipeline: an ordered list of snapshots of other module
//! configurations.

use vstd::prelude::*;

verus! {

/// The closed set of module identities.  One entry per module kind exists
/// in the registry for the whole process lifetime.
#[derive(Clone, Copy, PartialEq, Eq, Structural, Debug, Hash)]
pub enum WindowDiscriminants {
    ModContainer,
    Caster,
    ConvertBase,
    Replace,
    FromASCII,
}

/// Payload of the Caster module: a named, ordered pipeline of owned
/// snapshots of module configurations.
pub struct CasterArgs {
    pub name: String,
    pub list: Vec<Box<WindowTypes>>,
}

/// One configuration per module kind; the variant tag of a value never
/// changes after construction, only the payload fields do.
#[allow(inconsistent_fields)]
pub enum WindowTypes {
    ModContainer,
    Caster(CasterArgs),
    ConvertBase { from: u32 },
    Replace { from: String, to: String, regex: bool },
    FromASCII { sep: String },
}

/// Mathematical value of a `WindowTypes` configuration: the same tree of
/// variants, with text as character sequences and the pipeline as a
/// sequence of configuration values.
#[verifier::ext_equal]
#[allow(inconsistent_fields)]
pub enum ConfigV {
    ModContainer,
    Caster { name: Seq<char>, list: Seq<ConfigV> },
    ConvertBase { from: u32 },
    Replace { from: Seq<char>, to: Seq<char>, regex: bool },
    FromASCII { sep: Seq<char> },
}

/// The kind a configuration value belongs to.
pub open spec fn kind_of(c: ConfigV) -> WindowDiscriminants {
    match c {
        ConfigV::ModContainer => WindowDiscriminants::ModContainer,
        ConfigV::Caster { .. } => WindowDiscriminants::Caster,
        ConfigV::ConvertBase { .. } => WindowDiscriminants::ConvertBase,
        ConfigV::Replace { .. } => WindowDiscriminants::Replace,
        ConfigV::FromASCII { .. } => WindowDiscriminants::FromASCII,
    }
}

/// Value of a whole snapshot list, element by element.
pub open spec fn list_view(l: Seq<Box<WindowTypes>>) -> Seq<ConfigV>
    decreases l,
{
    if l.len() == 0 {
        Seq::empty()
    } else {
        list_view(l.drop_last()).push(cfg_view(*l.last()))
    }
}

/// Value of one configuration.
pub open spec fn cfg_view(c: WindowTypes) -> ConfigV
    decreases c,
{
    match c {
        WindowTypes::ModContainer => ConfigV::ModContainer,
        WindowTypes::Caster(args) => ConfigV::Caster { name: args.name@, list: list_view(args.list@) },
        WindowTypes::ConvertBase { from } => ConfigV::ConvertBase { from },
        WindowTypes::Replace { from, to, regex } => ConfigV::Replace {
            from: from@,
            to: to@,
            regex,
        },
        WindowTypes::FromASCII { sep } => ConfigV::FromASCII { sep: sep@ },
    }
}

impl View for WindowTypes {
    type V = ConfigV;

    open spec fn view(&self) -> ConfigV {
        cfg_view(*self)
    }
}

/// `list_view` is the element-wise value of the list.
pub proof fn lemma_list_view_index(l: Seq<Box<WindowTypes>>)
    ensures
        list_view(l).len() == l.len(),
        forall|i: int| 0 <= i < l.len() ==> list_view(l)[i] == cfg_view(*l[i]),
    decreases l.len(),
{
    if l.len() > 0 {
        lemma_list_view_index(l.drop_last());
    }
}

impl WindowTypes {
    /// The kind this configuration belongs to; the tag never changes over
    /// the value's lifetime.
    pub fn discriminant(&self) -> (d: WindowDiscriminants)
        ensures
            d == kind_of(self@),
    {
        match self {
            WindowTypes::ModContainer => WindowDiscriminants::ModContainer,
            WindowTypes::Caster(..) => WindowDiscriminants::Caster,
            WindowTypes::ConvertBase { .. } => WindowDiscriminants::ConvertBase,
            WindowTypes::Replace { .. } => WindowDiscriminants::Replace,
            WindowTypes::FromASCII { .. } => WindowDiscriminants::FromASCII,
        }
    }
}

/// The configuration a module starts with: empty texts, base zero, an
/// empty pipeline.
pub open spec fn default_config_v(k: WindowDiscriminants) -> ConfigV {
    match k {
        WindowDiscriminants::ModContainer => ConfigV::ModContainer,
        WindowDiscriminants::Caster => ConfigV::Caster {
            name: Seq::empty(),
            list: Seq::empty(),
        },
        WindowDiscriminants::ConvertBase => ConfigV::ConvertBase { from: 0 },
        WindowDiscriminants::Replace => ConfigV::Replace {
            from: Seq::empty(),
            to: Seq::empty(),
            regex: false,
        },
        WindowDiscriminants::FromASCII => ConfigV::FromASCII { sep: Seq::empty() },
    }
}

/// Builds the default configuration of a kind.
pub fn default_config(k: WindowDiscriminants) -> (c: WindowTypes)
    ensures
        c@ == default_config_v(k),
{
    match k {
        WindowDiscriminants::ModContainer => WindowTypes::ModContainer,
        WindowDiscriminants::Caster => WindowTypes::Caster(
            CasterArgs { name: String::new(), list: Vec::new() },
        ),
        WindowDiscriminants::ConvertBase => WindowTypes::ConvertBase { from: 0 },
        WindowDiscriminants::Replace => WindowTypes::Replace {
            from: String::new(),
            to: String::new(),
            regex: false,
        },
        WindowDiscriminants::FromASCII => WindowTypes::FromASCII { sep: String::new() },
    }
}

/// A default configuration belongs to the kind it was built for.
pub proof fn lemma_default_kind(k: WindowDiscriminants)
    ensures
        kind_of(default_config_v(k)) == k,
{
}

impl WindowDiscriminants {
    /// Every module kind, once each, in declaration order.
    pub fn all() -> (r: Vec<WindowDiscriminants>)
        ensures
            r@ == seq![
                WindowDiscriminants::ModContainer,
                WindowDiscriminants::Caster,
                WindowDiscriminants::ConvertBase,
                WindowDiscriminants::Replace,
                WindowDiscriminants::FromASCII,
            ],
    {
        let mut r: Vec<WindowDiscriminants> = Vec::new();
        r.push(WindowDiscriminants::ModContainer);
        r.push(WindowDiscriminants::Caster);
        r.push(WindowDiscriminants::ConvertBase);
        r.push(WindowDiscriminants::Replace);
        r.push(WindowDiscriminants::FromASCII);
        proof {
            assert(r@ =~= seq![
                WindowDiscriminants::ModContainer,
                WindowDiscriminants::Caster,
                WindowDiscriminants::ConvertBase,
                WindowDiscriminants::Replace,
                WindowDiscriminants::FromASCII,
            ]);
        }
        r
    }
}

impl Clone for WindowTypes {
    /// A deep, independent copy with the same mathematical value.
    #[verifier::loop_isolation(false)]
    fn clone(&self) -> (res: Self)
        ensures
            res@ == self@,
        decreases *self,
    {
        match self {
            WindowTypes::ModContainer => WindowTypes::ModContainer,
            WindowTypes::Caster(args) => {
                let mut list: Vec<Box<WindowTypes>> = Vec::new();
                let n = args.list.len();
                let mut j: usize = 0;
                while j < n
                    invariant
                        n == args.list@.len(),
                        j <= n,
                        list@.len() == j,
                        forall|t: int|
                            0 <= t < j ==> cfg_view(*(#[trigger] list@[t])) == cfg_view(
                                *args.list@[t],
                            ),
                    decreases n - j,
                {
                    proof {
                        assert(decreases_to!(*self => (*self)->Caster_0.list@[j as int]));
                    }
                    let b: Box<WindowTypes> = Box::new((*args.list[j]).clone());
                    list.push(b);
                    j += 1;
                }
                proof {
                    lemma_list_view_index(list@);
                    lemma_list_view_index(args.list@);
                    assert(list_view(list@) =~= list_view(args.list@));
                }
                WindowTypes::Caster(CasterArgs { name: args.name.clone(), list })
            },
            WindowTypes::ConvertBase { from } => WindowTypes::ConvertBase { from: *from },
            WindowTypes::Replace { from, to, regex } => WindowTypes::Replace {
                from: from.clone(),
                to: to.clone(),
                regex: *regex,
            },
            WindowTypes::FromASCII { sep } => WindowTypes::FromASCII { sep: sep.clone() },
        }
    }
}

} // verus!

