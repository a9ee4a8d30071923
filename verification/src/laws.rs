//! Laws of the registry operations, stated over their mathematical
//! transitions and proved once and for all.

use vstd::prelude::*;

use crate::classes::{
    chain_of, lemma_ord, spec_cast, spec_set_config, spec_toggle, Derecrypt, EntryV,
};
use crate::mods::{kind_of, ConfigV, WindowDiscriminants};

verus! {

/// Registry values the operations are meant for: every kind has its
/// entry, and each entry's configuration is of that entry's kind.
pub open spec fn modals_wf(m: Map<WindowDiscriminants, EntryV>) -> bool {
    &&& forall|k: WindowDiscriminants| #[trigger] m.dom().contains(k)
    &&& forall|k: WindowDiscriminants| kind_of((#[trigger] m[k]).config) == k
}

/// A well-formed registry's value satisfies `modals_wf`, so the laws
/// below hold of every registry the library hands out.
pub proof fn lemma_wf_modals(dc: Derecrypt)
    requires
        dc.wf(),
    ensures
        modals_wf(dc.modals()),
{
    assert forall|k: WindowDiscriminants| kind_of((#[trigger] dc.modals()[k]).config) == k by {
        lemma_ord(k);
    }
}

/// Law: toggling a module's visibility twice in succession returns the
/// registry to exactly its original value.
pub proof fn lemma_toggle_twice(m: Map<WindowDiscriminants, EntryV>, k: WindowDiscriminants)
    requires
        modals_wf(m),
    ensures
        spec_toggle(spec_toggle(m, k), k) == m,
{
    assert(spec_toggle(spec_toggle(m, k), k) =~~= m);
}

/// Law: casting one module and then another with `back` appends their
/// configurations in that order; casting the second with `front`
/// instead puts it before everything.  The second module must not be
/// the Caster itself, whose configuration the first cast changes.
pub proof fn lemma_cast_order(
    m: Map<WindowDiscriminants, EntryV>,
    d1: WindowDiscriminants,
    d2: WindowDiscriminants,
)
    requires
        modals_wf(m),
        d2 != WindowDiscriminants::Caster,
    ensures
        chain_of(spec_cast(spec_cast(m, d1, false), d2, false)) == chain_of(m).push(
            m[d1].config,
        ).push(m[d2].config),
        chain_of(spec_cast(spec_cast(m, d1, false), d2, true)) == seq![m[d2].config] + chain_of(
            m,
        ).push(m[d1].config),
{
    let m1 = spec_cast(m, d1, false);
    assert(m[WindowDiscriminants::Caster].config is Caster);
    assert(chain_of(m1) == chain_of(m).push(m[d1].config));
    assert(m1[d2] == m[d2]);
    assert(m1[WindowDiscriminants::Caster].config is Caster);
}

/// Law: casting is by value.  After a cast of module `d`, replacing that
/// module's configuration with any new value `c2` leaves the chain — and
/// with it the snapshot the cast took — exactly as it was, while the
/// registry entry at `d` now holds `c2`.
pub proof fn lemma_cast_by_value(
    m: Map<WindowDiscriminants, EntryV>,
    d: WindowDiscriminants,
    c2: ConfigV,
    front: bool,
)
    requires
        modals_wf(m),
        d != WindowDiscriminants::Caster,
        kind_of(c2) == d,
    ensures
        chain_of(spec_set_config(spec_cast(m, d, front), c2)) == chain_of(spec_cast(m, d, front)),
        spec_set_config(spec_cast(m, d, front), c2)[d].config == c2,
        front ==> chain_of(spec_cast(m, d, front)) == seq![m[d].config] + chain_of(m),
        !front ==> chain_of(spec_cast(m, d, front)) == chain_of(m).push(m[d].config),
{
    assert(m[WindowDiscriminants::Caster].config is Caster);
}

} // verus!
