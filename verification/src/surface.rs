//! Control-surface management: planning the destroy-then-recreate rebuild
//! of the one control channel per guild, and the shared reference that
//! always points at the authoritative surface.

use vstd::prelude::*;
use crate::text::str_eq;

verus! {

/// The fixed name of the control-surface channel.
pub open spec fn control_channel_name() -> Seq<char> {
    "light-controls"@
}

/// The fixed channel name itself.
pub fn control_channel_name_str() -> (r: &'static str)
    ensures
        r@ == control_channel_name(),
{
    "light-controls"
}

/// A guild channel as the rebuild logic sees it: its identifier and name.
pub struct GuildChannel {
    pub id: u64,
    pub name: String,
}

/// Whether a channel name is the control-surface name.
pub open spec fn is_control_named(name: Seq<char>) -> bool {
    name == control_channel_name()
}

/// The channels a rebuild deletes: every channel carrying the
/// control-surface name, in listing order.
pub fn channels_to_delete(chs: &Vec<GuildChannel>) -> (r: Vec<u64>)
    ensures
        r@ == chs@.filter(|c: GuildChannel| is_control_named(c.name@)).map_values(
            |c: GuildChannel| c.id,
        ),
{
    let mut r: Vec<u64> = Vec::new();
    proof {
        assert(chs@.subrange(0, 0) =~= Seq::<GuildChannel>::empty());
        assert(r@ =~= chs@.subrange(0, 0).filter(|c: GuildChannel| is_control_named(c.name@))
            .map_values(|c: GuildChannel| c.id)) by {
            reveal(Seq::filter);
        }
    }
    let mut i: usize = 0;
    while i < chs.len()
        invariant
            i <= chs@.len(),
            r@ == chs@.subrange(0, i as int).filter(|c: GuildChannel| is_control_named(c.name@))
                .map_values(|c: GuildChannel| c.id),
        decreases chs@.len() - i,
    {
        let c: &GuildChannel = &chs[i];
        proof {
            let prefix = chs@.subrange(0, i as int);
            let longer = chs@.subrange(0, i as int + 1);
            assert(longer =~= prefix.push(chs@[i as int]));
            lemma_filter_push(prefix, |cc: GuildChannel| is_control_named(cc.name@), chs@[
                i as int
            ]);
        }
        if str_eq(c.name.as_str(), control_channel_name_str()) {
            r.push(c.id);
            proof {
                let prefix = chs@.subrange(0, i as int);
                let p = |cc: GuildChannel| is_control_named(cc.name@);
                assert(chs@.subrange(0, i as int + 1).filter(p).map_values(
                    |cc: GuildChannel| cc.id,
                ) =~= prefix.filter(p).map_values(|cc: GuildChannel| cc.id).push(chs@[i as int].id));
            }
        } else {
            proof {
                let prefix = chs@.subrange(0, i as int);
                let p = |cc: GuildChannel| is_control_named(cc.name@);
                assert(chs@.subrange(0, i as int + 1).filter(p) == prefix.filter(p));
            }
        }
        i += 1;
    }
    proof {
        assert(chs@.subrange(0, chs@.len() as int) =~= chs@);
    }
    r
}

/// Filtering a sequence extended by one element keeps the old result and
/// appends the element exactly when it satisfies the predicate.
pub proof fn lemma_filter_push<A>(s: Seq<A>, p: spec_fn(A) -> bool, x: A)
    ensures
        s.push(x).filter(p) == (if p(x) {
            s.filter(p).push(x)
        } else {
            s.filter(p)
        }),
{
    reveal(Seq::filter);
    assert(s.push(x).drop_last() =~= s);
    assert(s.push(x).last() == x);
}

/// Filtering keeps nothing when no element satisfies the predicate.
pub proof fn lemma_filter_none<A>(s: Seq<A>, p: spec_fn(A) -> bool)
    requires
        forall|i: int| 0 <= i < s.len() ==> !p(s[i]),
    ensures
        s.filter(p) =~= Seq::<A>::empty(),
    decreases s.len(),
{
    reveal(Seq::filter);
    if s.len() > 0 {
        assert(forall|i: int| 0 <= i < s.drop_last().len() ==> !p(s.drop_last()[i]));
        lemma_filter_none(s.drop_last(), p);
        assert(!p(s.last()));
    }
}

/// A guild's channel listing as the model sees it: identifier and name.
pub open spec fn control_count(chans: Seq<(u64, Seq<char>)>) -> nat {
    chans.filter(|c: (u64, Seq<char>)| is_control_named(c.1)).len()
}

/// The channel listing after a rebuild: every same-named channel deleted,
/// then the one new control channel created.
pub open spec fn after_rebuild(chans: Seq<(u64, Seq<char>)>, new_id: u64) -> Seq<(u64, Seq<char>)> {
    chans.filter(|c: (u64, Seq<char>)| !is_control_named(c.1)).push((
        new_id,
        control_channel_name(),
    ))
}

/// After a rebuild of a guild with any number of pre-existing same-named
/// channels, exactly one channel with the control-surface name remains,
/// and it is the newly created one.
pub proof fn lemma_rebuild_exactly_one(chans: Seq<(u64, Seq<char>)>, new_id: u64)
    ensures
        control_count(after_rebuild(chans, new_id)) == 1,
        after_rebuild(chans, new_id).last() == (new_id, control_channel_name()),
        forall|i: int|
            0 <= i < after_rebuild(chans, new_id).len() && is_control_named(
                #[trigger] after_rebuild(chans, new_id)[i].1,
            ) ==> after_rebuild(chans, new_id)[i] == (new_id, control_channel_name()),
{
    let keep = |c: (u64, Seq<char>)| !is_control_named(c.1);
    let ctrl = |c: (u64, Seq<char>)| is_control_named(c.1);
    let survivors = chans.filter(keep);
    let fresh = (new_id, control_channel_name());
    broadcast use vstd::seq_lib::group_filter_ensures;

    assert(forall|i: int| 0 <= i < survivors.len() ==> !ctrl(#[trigger] survivors[i]));
    lemma_filter_none(survivors, ctrl);
    lemma_filter_push(survivors, ctrl, fresh);
    assert(survivors.filter(ctrl).push(fresh) =~= seq![fresh]);
}

/// The shared reference to the currently active control surface: absent at
/// startup, set once per rebuild, only ever replaced by a later rebuild.
pub struct ControlSurfaceRef {
    current: Option<u64>,
}

impl ControlSurfaceRef {
    /// The surface currently referenced, if any.
    pub closed spec fn current_spec(self) -> Option<u64> {
        self.current
    }

    /// A reference that points at no surface yet.
    pub fn new() -> (r: Self)
        ensures
            r.current_spec() is None,
    {
        ControlSurfaceRef { current: None }
    }

    /// Stores the identifier of a freshly created surface, replacing any
    /// previous one.
    pub fn set(&mut self, id: u64)
        ensures
            final(self).current_spec() == Some(id),
    {
        self.current = Some(id);
    }

    /// Reads the current surface identifier.
    pub fn get(&self) -> (r: Option<u64>)
        ensures
            r == self.current_spec(),
    {
        self.current
    }
}

} // verus!
