//! The module registry and its operations.
//!
//! A `Derecrypt` value owns one `DcModBase` entry per module kind, the
//! chosen output file path, and the working string.  The registry is kept
//! as a vector with one slot per kind, in declaration order; its
//! mathematical value is a total map from kind to entry value.

use vstd::prelude::*;
use vstd::string::StrSliceExecFns;

use crate::mods::{
    default_config, default_config_v, kind_of, lemma_default_kind, lemma_list_view_index,
    list_view, ConfigV, WindowDiscriminants, WindowTypes,
};

verus! {

/// One registry entry: a visibility flag and the module's configuration.
pub struct DcModBase {
    pub active: bool,
    pub params_state: WindowTypes,
}

/// Mathematical value of a registry entry.
#[verifier::ext_equal]
pub struct EntryV {
    pub active: bool,
    pub config: ConfigV,
}

impl View for DcModBase {
    type V = EntryV;

    open spec fn view(&self) -> EntryV {
        EntryV { active: self.active, config: self.params_state@ }
    }
}

/// Slot of a kind in the registry vector.
pub open spec fn ord(k: WindowDiscriminants) -> int {
    match k {
        WindowDiscriminants::ModContainer => 0,
        WindowDiscriminants::Caster => 1,
        WindowDiscriminants::ConvertBase => 2,
        WindowDiscriminants::Replace => 3,
        WindowDiscriminants::FromASCII => 4,
    }
}

/// The kind kept in a registry slot.
pub open spec fn kind_at(i: int) -> WindowDiscriminants {
    if i == 0 {
        WindowDiscriminants::ModContainer
    } else if i == 1 {
        WindowDiscriminants::Caster
    } else if i == 2 {
        WindowDiscriminants::ConvertBase
    } else if i == 3 {
        WindowDiscriminants::Replace
    } else {
        WindowDiscriminants::FromASCII
    }
}

/// `ord` places every kind in its own slot.
pub proof fn lemma_ord(k: WindowDiscriminants)
    ensures
        0 <= ord(k) < 5,
        kind_at(ord(k)) == k,
{
}

/// Slot of a kind, computed.
pub fn kind_index(k: WindowDiscriminants) -> (i: usize)
    ensures
        i == ord(k),
{
    match k {
        WindowDiscriminants::ModContainer => 0,
        WindowDiscriminants::Caster => 1,
        WindowDiscriminants::ConvertBase => 2,
        WindowDiscriminants::Replace => 3,
        WindowDiscriminants::FromASCII => 4,
    }
}

/// The registry right after initialization: every kind present, hidden,
/// with its default configuration.
pub open spec fn init_modals() -> Map<WindowDiscriminants, EntryV> {
    Map::new(
        |k: WindowDiscriminants| true,
        |k: WindowDiscriminants| EntryV { active: false, config: default_config_v(k) },
    )
}

/// Flipping one entry's visibility; the configuration is untouched.
pub open spec fn spec_toggle(
    m: Map<WindowDiscriminants, EntryV>,
    k: WindowDiscriminants,
) -> Map<WindowDiscriminants, EntryV> {
    m.insert(k, EntryV { active: !m[k].active, config: m[k].config })
}

/// The assembled pipeline: the snapshot list inside the Caster entry.
pub open spec fn chain_of(m: Map<WindowDiscriminants, EntryV>) -> Seq<ConfigV> {
    match m[WindowDiscriminants::Caster].config {
        ConfigV::Caster { list, .. } => list,
        _ => Seq::empty(),
    }
}

/// Casting: a snapshot of the configuration at `d` is appended to the
/// pipeline (`front` prepends instead).  If the Caster entry were not of
/// the Caster variant — impossible in a well-formed registry — nothing
/// changes.
pub open spec fn spec_cast(
    m: Map<WindowDiscriminants, EntryV>,
    d: WindowDiscriminants,
    front: bool,
) -> Map<WindowDiscriminants, EntryV> {
    match m[WindowDiscriminants::Caster].config {
        ConfigV::Caster { name, list } => m.insert(
            WindowDiscriminants::Caster,
            EntryV {
                active: m[WindowDiscriminants::Caster].active,
                config: ConfigV::Caster {
                    name,
                    list: if front {
                        seq![m[d].config] + list
                    } else {
                        list.push(m[d].config)
                    },
                },
            },
        ),
        _ => m,
    }
}

/// Replacing the configuration of the entry the new value belongs to; the
/// visibility flag is untouched.
pub open spec fn spec_set_config(
    m: Map<WindowDiscriminants, EntryV>,
    c: ConfigV,
) -> Map<WindowDiscriminants, EntryV> {
    m.insert(kind_of(c), EntryV { active: m[kind_of(c)].active, config: c })
}

/// The characters of a path after its last separator; empty when the
/// path is empty or ends in a separator.
pub open spec fn last_seg(p: Seq<char>) -> Seq<char>
    decreases p.len(),
{
    if p.len() == 0 {
        Seq::empty()
    } else if p[p.len() - 1] == '/' {
        Seq::empty()
    } else {
        last_seg(p.subrange(0, p.len() - 1)).push(p[p.len() - 1])
    }
}

/// The path's final segment is exactly ".".
pub open spec fn ends_in_dot_seg(p: Seq<char>) -> bool {
    p.len() >= 1 && p[p.len() - 1] == '.' && (p.len() == 1 || p[p.len() - 2] == '/')
}

/// The path's final segment is exactly "..".
pub open spec fn ends_in_dotdot_seg(p: Seq<char>) -> bool {
    p.len() >= 2 && p[p.len() - 1] == '.' && p[p.len() - 2] == '.' && (p.len() == 2 || p[p.len()
        - 3] == '/')
}

/// The displayable file name of a path, as the platform's path parsing
/// derives it: the final component once trailing separators and "."
/// segments are passed over; no value when no component is left, or when
/// the final component is "..".
pub open spec fn file_name_of(p: Seq<char>) -> Option<Seq<char>>
    decreases p.len(),
{
    if p.len() == 0 {
        None
    } else if p[p.len() - 1] == '/' || ends_in_dot_seg(p) {
        file_name_of(p.subrange(0, p.len() - 1))
    } else if ends_in_dotdot_seg(p) {
        None
    } else {
        Some(last_seg(p))
    }
}

/// Past the last separator, `last_seg` is the remaining suffix.
proof fn lemma_last_seg_suffix(p: Seq<char>, k: int)
    requires
        0 <= k <= p.len(),
        forall|i: int| k <= i < p.len() ==> p[i] != '/',
        k == 0 || p[k - 1] == '/',
    ensures
        last_seg(p) == p.subrange(k, p.len() as int),
    decreases p.len(),
{
    if p.len() == 0 {
        assert(last_seg(p) =~= p.subrange(k, p.len() as int));
    } else if k == p.len() {
        assert(last_seg(p) =~= p.subrange(k, p.len() as int));
    } else {
        let q = p.subrange(0, p.len() - 1);
        lemma_last_seg_suffix(q, k);
        assert(last_seg(p) =~= p.subrange(k, p.len() as int));
    }
}

/// The application core: the module registry, the chosen output path and
/// the working string.
pub struct Derecrypt {
    pub open_modals: Vec<DcModBase>,
    pub outfile: Option<String>,
    pub string: String,
}

impl Derecrypt {
    /// Registry well-formedness: one slot per kind, each holding a
    /// configuration of that kind.
    pub open spec fn wf(self) -> bool {
        &&& self.open_modals@.len() == 5
        &&& forall|i: int|
            0 <= i < 5 ==> kind_of((#[trigger] self.open_modals@[i])@.config) == kind_at(i)
    }

    /// Mathematical value of the registry: a total map from kind to entry.
    pub open spec fn modals(self) -> Map<WindowDiscriminants, EntryV> {
        Map::new(|k: WindowDiscriminants| true, |k: WindowDiscriminants| self.open_modals@[ord(k)]@)
    }

    /// Mathematical value of the chosen output path.
    pub open spec fn outfile_v(self) -> Option<Seq<char>> {
        match self.outfile {
            Some(p) => Some(p@),
            None => None,
        }
    }

    /// Initializes the registry: every module kind gets an entry, hidden
    /// and with its default configuration; no output path; an empty
    /// working string.
    pub fn new() -> (dc: Derecrypt)
        ensures
            dc.wf(),
            dc.modals() == init_modals(),
            forall|k: WindowDiscriminants| !(#[trigger] dc.modals()[k]).active,
            forall|k: WindowDiscriminants| kind_of((#[trigger] dc.modals()[k]).config) == k,
            dc.outfile is None,
            dc.string@ == Seq::<char>::empty(),
    {
        let mut modals: Vec<DcModBase> = Vec::new();
        modals.push(
            DcModBase {
                active: false,
                params_state: default_config(WindowDiscriminants::ModContainer),
            },
        );
        modals.push(
            DcModBase { active: false, params_state: default_config(WindowDiscriminants::Caster) },
        );
        modals.push(
            DcModBase {
                active: false,
                params_state: default_config(WindowDiscriminants::ConvertBase),
            },
        );
        modals.push(
            DcModBase { active: false, params_state: default_config(WindowDiscriminants::Replace) },
        );
        modals.push(
            DcModBase {
                active: false,
                params_state: default_config(WindowDiscriminants::FromASCII),
            },
        );
        let dc = Derecrypt { open_modals: modals, outfile: None, string: String::new() };
        proof {
            assert forall|i: int| 0 <= i < 5 implies kind_of(
                (#[trigger] dc.open_modals@[i])@.config,
            ) == kind_at(i) by {
                lemma_default_kind(kind_at(i));
            }
            assert forall|k: WindowDiscriminants| dc.modals()[k] =~~= init_modals()[k] by {
                lemma_ord(k);
                lemma_default_kind(k);
            }
            assert(dc.modals() =~~= init_modals());
        }
        dc
    }

    /// The entry registered for a kind; every kind always has one.
    pub fn get_window_from_disc(&self, winid: WindowDiscriminants) -> (entry: &DcModBase)
        requires
            self.wf(),
        ensures
            entry@ == self.modals()[winid],
    {
        proof {
            lemma_ord(winid);
        }
        let i = kind_index(winid);
        &self.open_modals[i]
    }

    /// Flips the visibility of the entry at `winid`; its configuration and
    /// every other entry stay as they were.
    pub fn toggle_module_visibility(&mut self, winid: WindowDiscriminants)
        requires
            old(self).wf(),
        ensures
            final(self).wf(),
            final(self).modals() == spec_toggle(old(self).modals(), winid),
            final(self).outfile == old(self).outfile,
            final(self).string == old(self).string,
    {
        proof {
            lemma_ord(winid);
        }
        let i = kind_index(winid);
        let e = self.open_modals.remove(i);
        let active = e.active;
        self.open_modals.insert(i, DcModBase { active: !active, params_state: e.params_state });
        proof {
            vstd::seq_lib::lemma_update_is_remove_insert(
                old(self).open_modals@,
                i as int,
                self.open_modals@[i as int],
            );
            assert(self.open_modals@ =~= old(self).open_modals@.update(
                i as int,
                self.open_modals@[i as int],
            ));
            assert forall|j: int| 0 <= j < 5 implies kind_of(
                (#[trigger] self.open_modals@[j])@.config,
            ) == kind_at(j) by {}
            assert forall|k2: WindowDiscriminants| self.modals()[k2] =~~= spec_toggle(
                old(self).modals(),
                winid,
            )[k2] by {
                lemma_ord(k2);
            }
            assert(self.modals() =~~= spec_toggle(old(self).modals(), winid));
        }
    }

    /// Replaces the configuration of the kind `config` belongs to; the
    /// entry's visibility and every other entry stay as they were.
    pub fn set_module_config(&mut self, config: WindowTypes)
        requires
            old(self).wf(),
        ensures
            final(self).wf(),
            final(self).modals() == spec_set_config(old(self).modals(), config@),
            final(self).outfile == old(self).outfile,
            final(self).string == old(self).string,
    {
        let d = config.discriminant();
        proof {
            lemma_ord(d);
        }
        let i = kind_index(d);
        let e = self.open_modals.remove(i);
        let active = e.active;
        self.open_modals.insert(i, DcModBase { active, params_state: config });
        proof {
            vstd::seq_lib::lemma_update_is_remove_insert(
                old(self).open_modals@,
                i as int,
                self.open_modals@[i as int],
            );
            assert(self.open_modals@ =~= old(self).open_modals@.update(
                i as int,
                self.open_modals@[i as int],
            ));
            assert forall|k2: WindowDiscriminants| self.modals()[k2] =~~= spec_set_config(
                old(self).modals(),
                config@,
            )[k2] by {
                lemma_ord(k2);
            }
            assert(self.modals() =~~= spec_set_config(old(self).modals(), config@));
        }
    }

    /// Casts the module at `disc`: a deep, independent snapshot of its
    /// current configuration is appended to the Caster pipeline, or
    /// prepended when `to_front` holds.  Later changes to the source
    /// module do not reach the snapshot.
    pub fn cast_module(&mut self, disc: WindowDiscriminants, to_front: bool)
        requires
            old(self).wf(),
        ensures
            final(self).wf(),
            final(self).modals() == spec_cast(old(self).modals(), disc, to_front),
            final(self).outfile == old(self).outfile,
            final(self).string == old(self).string,
    {
        proof {
            lemma_ord(disc);
            lemma_ord(WindowDiscriminants::Caster);
        }
        let si = kind_index(disc);
        let snap: WindowTypes = self.open_modals[si].params_state.clone();
        let ci = kind_index(WindowDiscriminants::Caster);
        let e = self.open_modals.remove(ci);
        let active = e.active;
        match e.params_state {
            WindowTypes::Caster(mut args) => {
                let b = Box::new(snap);
                if to_front {
                    args.list.insert(0, b);
                } else {
                    args.list.push(b);
                }
                proof {
                    lemma_list_view_index(args.list@);
                    lemma_list_view_index(old(self).open_modals@[1].params_state->Caster_0.list@);
                }
                self.open_modals.insert(
                    ci,
                    DcModBase { active, params_state: WindowTypes::Caster(args) },
                );
            },
            other => {
                proof {
                    assert(kind_of(old(self).open_modals@[1]@.config)
                        == WindowDiscriminants::Caster);
                    assert(false);
                }
                self.open_modals.insert(ci, DcModBase { active, params_state: other });
            },
        }
        proof {
            vstd::seq_lib::lemma_update_is_remove_insert(
                old(self).open_modals@,
                1,
                self.open_modals@[1],
            );
            assert(self.open_modals@ =~= old(self).open_modals@.update(1, self.open_modals@[1]));
            let m0 = old(self).modals();
            let list0 = m0[WindowDiscriminants::Caster].config->Caster_list;
            let list1 = self.open_modals@[1]@.config->Caster_list;
            if to_front {
                assert(list1 =~= seq![m0[disc].config] + list0);
            } else {
                assert(list1 =~= list0.push(m0[disc].config));
            }
            assert forall|k2: WindowDiscriminants| self.modals()[k2] =~~= spec_cast(
                m0,
                disc,
                to_front,
            )[k2] by {
                lemma_ord(k2);
            }
            assert(self.modals() =~~= spec_cast(m0, disc, to_front));
        }
    }

    /// One user interaction with a module's button: a click toggles the
    /// module's visibility; the context-menu choices cast the module to
    /// the back (`cast_push`) or the front (`cast_unshift`) of the
    /// pipeline, and close the menu.
    pub fn popout_button(
        &mut self,
        clicked: bool,
        cast_push: bool,
        cast_unshift: bool,
        disc: WindowDiscriminants,
    ) -> (close_menu: bool)
        requires
            old(self).wf(),
        ensures
            final(self).wf(),
            close_menu == (cast_push || cast_unshift),
            ({
                let m1 = if clicked {
                    spec_toggle(old(self).modals(), disc)
                } else {
                    old(self).modals()
                };
                final(self).modals() == if cast_push {
                    spec_cast(m1, disc, false)
                } else if cast_unshift {
                    spec_cast(m1, disc, true)
                } else {
                    m1
                }
            }),
            final(self).outfile == old(self).outfile,
            final(self).string == old(self).string,
    {
        if clicked {
            self.toggle_module_visibility(disc);
        }
        if cast_push {
            self.cast_module(disc, false);
            true
        } else if cast_unshift {
            self.cast_module(disc, true);
            true
        } else {
            false
        }
    }

    /// The displayable base name of the chosen output path: its final
    /// component, with trailing separators and "." segments passed over,
    /// as the platform's path parsing derives it.  Nothing when no path
    /// is set, or when the stored path has no final component (empty,
    /// all separators, or ending in "..").
    #[verifier::loop_isolation(false)]
    pub fn filename(&self) -> (res: Option<String>)
        ensures
            match self.outfile_v() {
                None => res is None,
                Some(p) => match file_name_of(p) {
                    None => res is None,
                    Some(seg) => res matches Some(f) && f@ == seg,
                },
            },
    {
        match &self.outfile {
            None => None,
            Some(v) => {
                let s = v.as_str();
                let n = s.unicode_len();
                // Pass over trailing separators and trailing "." segments.
                let mut end: usize = n;
                let mut done: bool = false;
                proof {
                    assert(v@.subrange(0, n as int) =~= v@);
                }
                while !done
                    invariant
                        end <= n,
                        file_name_of(v@) == file_name_of(v@.subrange(0, end as int)),
                        done ==> end == 0 || (v@[end - 1] != '/' && !ends_in_dot_seg(
                            v@.subrange(0, end as int),
                        )),
                    decreases end, (if done { 0int } else { 1int }),
                {
                    if end == 0 {
                        done = true;
                    } else {
                        let c = s.get_char(end - 1);
                        if c == '/' || (c == '.' && (end == 1 || s.get_char(end - 2) == '/')) {
                            proof {
                                assert(v@.subrange(0, end as int).subrange(0, end - 1) =~= v@
                                    .subrange(0, end - 1));
                            }
                            end -= 1;
                        } else {
                            done = true;
                        }
                    }
                }
                if end == 0 {
                    return None;
                }
                // A final ".." component has no displayable name.
                if s.get_char(end - 1) == '.' && end >= 2 && s.get_char(end - 2) == '.' && (end
                    == 2 || s.get_char(end - 3) == '/') {
                    proof {
                        assert(ends_in_dotdot_seg(v@.subrange(0, end as int)));
                    }
                    return None;
                }
                let mut start: usize = 0;
                let mut i: usize = 0;
                while i < end
                    invariant
                        start <= i <= end,
                        start == 0 || s@[start - 1] == '/',
                        forall|t: int| start <= t < i ==> s@[t] != '/',
                    decreases end - i,
                {
                    if s.get_char(i) == '/' {
                        start = i + 1;
                    }
                    i += 1;
                }
                proof {
                    let q = v@.subrange(0, end as int);
                    assert(!ends_in_dotdot_seg(q));
                    lemma_last_seg_suffix(q, start as int);
                    assert(q.subrange(start as int, end as int) =~= v@.subrange(
                        start as int,
                        end as int,
                    ));
                }
                let f = s.substring_char(start, end);
                Some(f.to_owned())
            },
        }
    }

    /// The Caster pipeline, in application order, for display.
    pub fn caster_list(&self) -> (list: &Vec<Box<WindowTypes>>)
        requires
            self.wf(),
        ensures
            list_view(list@) == chain_of(self.modals()),
    {
        proof {
            lemma_ord(WindowDiscriminants::Caster);
        }
        let ci = kind_index(WindowDiscriminants::Caster);
        match &self.open_modals[ci].params_state {
            WindowTypes::Caster(args) => &args.list,
            _ => {
                proof {
                    assert(kind_of(self.open_modals@[1]@.config) == WindowDiscriminants::Caster);
                    assert(false);
                }
                vstd::pervasive::unreached()
            },
        }
    }
}

} // verus!
