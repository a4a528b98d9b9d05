//! Construction and storage of unit actions: one `Act` describes an
//! ability use with an optional target; the containers batch acts so
//! that units sharing the same command are issued together.

use crate::ids::Ability;
use crate::linalg::Point2;
use crate::unit::Tag;
use vstd::prelude::*;

verus! {

/// The target of an act: a world position or another unit.
#[derive(Debug, Clone, Copy, PartialEq, Eq, Hash, Structural)]
pub enum Target {
    Pos(Point2),
    Unit(Tag),
}

/// One ability use: the ability, an optional target, and whether the
/// command queues behind the unit's current orders.
#[derive(Debug, Default, Clone, Copy, PartialEq, Eq, Hash, Structural)]
pub struct Act {
    pub ability: Ability,
    pub target: Option<Target>,
    pub queue: bool,
}

impl Act {
    /// An untargeted, unqueued use of `ability`.
    pub fn new(ability: Ability) -> (r: Act)
        ensures
            r.ability == ability,
            r.target is None,
            !r.queue,
    {
        Act { ability, target: None, queue: false }
    }

    /// The same act aimed at `target`.
    pub fn target(self, target: Target) -> (r: Act)
        ensures
            r == (Act { target: Some(target), ..self }),
    {
        Act { target: Some(target), ..self }
    }

    /// The same act with no target.
    pub fn target_none(self) -> (r: Act)
        ensures
            r == (Act { target: None, ..self }),
    {
        Act { target: None, ..self }
    }

    /// The same act aimed at a position.
    pub fn target_pos(self, pos: Point2) -> (r: Act)
        ensures
            r == (Act { target: Some(Target::Pos(pos)), ..self }),
    {
        self.target(Target::Pos(pos))
    }

    /// The same act aimed at a unit.
    pub fn target_unit(self, tag: Tag) -> (r: Act)
        ensures
            r == (Act { target: Some(Target::Unit(tag)), ..self }),
    {
        self.target(Target::Unit(tag))
    }

    /// The same act with the queue flag set to `queue`.
    pub fn queue(self, queue: bool) -> (r: Act)
        ensures
            r == (Act { queue, ..self }),
    {
        Act { queue, ..self }
    }
}

/// One raw unit command as it goes out in an `Action` request: an
/// ability applied by a set of units to an optional target.
#[derive(Debug, Clone, PartialEq, Eq, Hash)]
pub struct UnitCommand {
    pub ability: Ability,
    pub target: Option<Target>,
    pub unit_tags: Vec<Tag>,
    pub queue: bool,
}

/// Whether `tags` holds `tag`.
fn tags_contain(tags: &Vec<Tag>, tag: Tag) -> (r: bool)
    ensures
        r == tags@.contains(tag),
{
    let mut i: usize = 0;
    while i < tags.len()
        invariant
            i <= tags.len(),
            forall|j: int| 0 <= j < i ==> tags@[j] != tag,
        decreases tags.len() - i,
    {
        if tags[i] == tag {
            return true;
        }
        i = i + 1;
    }
    false
}

/// Append the tags of `src` that are not yet in `dst`: afterwards `dst`
/// holds exactly the union, and stays duplicate-free if it was.
fn merge_tags(dst: &mut Vec<Tag>, src: &Vec<Tag>)
    ensures
        final(dst)@.to_set() == old(dst)@.to_set() + src@.to_set(),
        old(dst)@.no_duplicates() ==> final(dst)@.no_duplicates(),
{
    let mut i: usize = 0;
    while i < src.len()
        invariant
            i <= src.len(),
            dst@.to_set() == old(dst)@.to_set() + src@.take(i as int).to_set(),
            old(dst)@.no_duplicates() ==> dst@.no_duplicates(),
        decreases src.len() - i,
    {
        let t = src[i];
        let ghost dst_prev = dst@;
        if !tags_contain(dst, t) {
            dst.push(t);
        }
        i = i + 1;
        proof {
            let tk = src@.take(i as int);
            assert(tk =~= src@.take(i - 1).push(t));
            assert forall|e: Tag| #[trigger] tk.contains(e) implies (src@.take(i - 1).contains(e)
                || e == t) by {
                let j = choose|j: int| 0 <= j < tk.len() && tk[j] == e;
                if j < tk.len() - 1 {
                    assert(src@.take(i - 1)[j] == e);
                }
            }
            assert forall|e: Tag| src@.take(i - 1).contains(e) implies tk.contains(e) by {
                let j = choose|j: int| 0 <= j < i - 1 && #[trigger] src@.take(i - 1)[j] == e;
                assert(tk[j] == e);
            }
            assert(tk.contains(t)) by {
                assert(tk[tk.len() - 1] == t);
            }
            if dst@ != dst_prev {
                assert forall|e: Tag| #[trigger] dst@.contains(e) implies (dst_prev.contains(e)
                    || e == t) by {
                    let j = choose|j: int| 0 <= j < dst@.len() && dst@[j] == e;
                    if j < dst@.len() - 1 {
                        assert(dst_prev[j] == e);
                    }
                }
                assert forall|e: Tag| dst_prev.contains(e) implies dst@.contains(e) by {
                    let j = choose|j: int| 0 <= j < dst_prev.len() && dst_prev[j] == e;
                    assert(dst@[j] == e);
                }
                assert(dst@.contains(t)) by {
                    assert(dst@[dst@.len() - 1] == t);
                }
                if dst_prev.no_duplicates() {
                    assert(dst@.no_duplicates()) by {
                        assert forall|x: int, y: int| 0 <= x < y < dst@.len() implies dst@[x]
                            != dst@[y] by {
                            if y == dst@.len() - 1 {
                                assert(dst@[y] == t);
                                assert(dst@[x] == dst_prev[x]);
                                assert(dst_prev.contains(dst_prev[x]));
                            }
                        }
                    }
                }
            }
            assert forall|e: Tag| #[trigger] dst@.to_set().contains(e) <==> (old(
                dst,
            )@.to_set().contains(e) || tk.to_set().contains(e)) by {
                assert(dst@.to_set().contains(e) == dst@.contains(e));
                assert(old(dst)@.to_set().contains(e) == old(dst)@.contains(e));
                assert(tk.to_set().contains(e) == tk.contains(e));
                assert(dst_prev.to_set().contains(e) == dst_prev.contains(e));
                assert(src@.take(i - 1).to_set().contains(e) == src@.take(i - 1).contains(e));
                assert(dst_prev.to_set().contains(e) == (old(dst)@.to_set().contains(e) || src@.take(
                    i - 1,
                ).to_set().contains(e)));
            }
            assert(dst@.to_set() =~= old(dst)@.to_set() + tk.to_set());
        }
    }
    proof {
        assert(src@.take(src@.len() as int) =~= src@);
    }
}

/// The duplicate-free version of `tags`, keeping first occurrences.
fn dedup_tags(tags: &Vec<Tag>) -> (r: Vec<Tag>)
    ensures
        r@.to_set() == tags@.to_set(),
        r@.no_duplicates(),
{
    let mut r: Vec<Tag> = Vec::new();
    proof {
        assert(r@.to_set() =~= Seq::<Tag>::empty().to_set());
        assert(Seq::<Tag>::empty().to_set() + tags@.to_set() =~= tags@.to_set());
    }
    merge_tags(&mut r, tags);
    r
}

/// A shared unit-target (or untargeted) command in the making.
pub type ActKey = (Ability, Option<Tag>, bool);

/// Whether two unit-target keys are the same.
fn key_eq(a: ActKey, b: ActKey) -> (r: bool)
    ensures
        r == (a == b),
{
    let tgt_eq = match (a.1, b.1) {
        (None, None) => true,
        (Some(x), Some(y)) => x == y,
        _ => false,
    };
    let r = a.0 == b.0 && tgt_eq && a.2 == b.2;
    proof {
        if a.0 == b.0 && a.1 == b.1 && a.2 == b.2 {
            assert(a == b);
        }
    }
    r
}

/// The first entry with the given key, if any.
fn find_key(acts: &Vec<(ActKey, Vec<Tag>)>, key: ActKey) -> (r: Option<usize>)
    ensures
        r matches Some(j) ==> j < acts@.len() && acts@[j as int].0 == key,
        r is None ==> forall|i: int| 0 <= i < acts@.len() ==> acts@[i].0 != key,
{
    let mut j: usize = 0;
    while j < acts.len()
        invariant
            j <= acts.len(),
            forall|i: int| 0 <= i < j ==> acts@[i].0 != key,
        decreases acts.len() - j,
    {
        if key_eq(acts[j].0, key) {
            return Some(j);
        }
        j = j + 1;
    }
    None
}

/// A positional command in the making.
pub type PosKey = (Ability, Point2, bool);

/// Batches acts, merging the unit sets of acts that share ability,
/// unit target and queue flag; positional acts are kept batch by batch.
#[derive(Debug, Default, Clone, PartialEq, Eq)]
pub struct Actions {
    acts: Vec<(ActKey, Vec<Tag>)>,
    acts_pos: Vec<(PosKey, Vec<Tag>)>,
}

impl Actions {
    /// The merged entries, as contracts see them.
    pub closed spec fn spec_acts(&self) -> Seq<(ActKey, Vec<Tag>)> {
        self.acts@
    }

    /// The positional entries, as contracts see them.
    pub closed spec fn spec_acts_pos(&self) -> Seq<(PosKey, Vec<Tag>)> {
        self.acts_pos@
    }

    /// An empty batch.
    pub fn new() -> (r: Actions)
        ensures
            r.spec_acts().len() == 0,
            r.spec_acts_pos().len() == 0,
    {
        Actions { acts: Vec::new(), acts_pos: Vec::new() }
    }

    /// Whether nothing has been batched.
    pub fn is_empty(&self) -> (r: bool)
        ensures
            r == (self.spec_acts().len() == 0 && self.spec_acts_pos().len() == 0),
    {
        self.acts.is_empty() && self.acts_pos.is_empty()
    }

    /// Record one act for one unit.
    pub fn add(&mut self, act: Act, tag: Tag)
        ensures
            batched(
                old(self).spec_acts(),
                old(self).spec_acts_pos(),
                final(self).spec_acts(),
                final(self).spec_acts_pos(),
                act,
                seq![tag],
            ),
    {
        let mut tags: Vec<Tag> = Vec::new();
        tags.push(tag);
        proof {
            assert(tags@ =~= seq![tag]);
        }
        self.add_batch(act, tags);
    }

    /// Record one act for a batch of units.
    pub fn add_batch(&mut self, act: Act, tags: Vec<Tag>)
        ensures
            batched(
                old(self).spec_acts(),
                old(self).spec_acts_pos(),
                final(self).spec_acts(),
                final(self).spec_acts_pos(),
                act,
                tags@,
            ),
    {
        match act.target {
            Some(Target::Pos(pos)) => {
                let entry = ((act.ability, pos, act.queue), dedup_tags(&tags));
                self.acts_pos.push(entry);
                proof {
                    assert(self.acts_pos@.take(old(self).acts_pos@.len() as int) =~= old(
                        self,
                    ).acts_pos@);
                }
            },
            other => {
                let target = match other {
                    Some(Target::Unit(t)) => Some(t),
                    _ => None,
                };
                let key = (act.ability, target, act.queue);
                match find_key(&self.acts, key) {
                    Some(j) => {
                        let mut entry = self.acts.remove(j);
                        merge_tags(&mut entry.1, &tags);
                        self.acts.push(entry);
                        proof {
                            let acts0 = old(self).acts@;
                            let acts1 = self.acts@;
                            assert(acts1.last() == entry);
                            assert(acts1 =~= acts0.remove(j as int).push(entry));
                            assert(0 <= j < acts0.len() && acts0[j as int].0 == key && acts1
                                =~= acts0.remove(j as int).push(acts1.last())
                                && acts1.last().1@.to_set() == acts0[j as int].1@.to_set()
                                + tags@.to_set() && (acts0[j as int].1@.no_duplicates()
                                ==> acts1.last().1@.no_duplicates()));
                        }
                    },
                    None => {
                        self.acts.push((key, dedup_tags(&tags)));
                        proof {
                            let acts0 = old(self).acts@;
                            let acts1 = self.acts@;
                            assert(acts1 =~= acts0.push(acts1.last()));
                        }
                    },
                }
            },
        }
    }

    /// Move every batched command into `buf`, in entry order with the
    /// unit-target commands first, and empty this batch.
    pub fn flush_to_vec(&mut self, buf: &mut Vec<UnitCommand>)
        ensures
            final(self).spec_acts().len() == 0,
            final(self).spec_acts_pos().len() == 0,
            final(buf)@ == old(buf)@ + old(self).spec_acts().map_values(
                |e: (ActKey, Vec<Tag>)| unit_entry_cmd(e),
            ) + old(self).spec_acts_pos().map_values(|e: (PosKey, Vec<Tag>)| pos_entry_cmd(e)),
    {
        let mut i: usize = 0;
        let n0 = self.acts.len();
        let m0 = self.acts_pos.len();
        let ghost acts0 = self.acts@;
        let ghost pos0 = self.acts_pos@;
        while self.acts.len() > 0
            invariant
                acts0.len() == n0,
                pos0.len() == m0,
                i <= acts0.len(),
                self.acts@ =~= acts0.skip(i as int),
                self.acts_pos@ == pos0,
                buf@ == old(buf)@ + acts0.take(i as int).map_values(
                    |e: (ActKey, Vec<Tag>)| unit_entry_cmd(e),
                ),
            decreases self.acts@.len(),
        {
            let entry = self.acts.remove(0);
            proof {
                assert(acts0.skip(i as int)[0] == acts0[i as int]);
                assert(acts0.skip(i as int).skip(1) =~= acts0.skip(i + 1));
            }
            buf.push(
                UnitCommand {
                    ability: entry.0.0,
                    target: match entry.0.1 {
                        Some(t) => Some(Target::Unit(t)),
                        None => None,
                    },
                    unit_tags: entry.1,
                    queue: entry.0.2,
                },
            );
            i = i + 1;
            proof {
                assert(acts0.take(i as int) =~= acts0.take(i - 1).push(acts0[i - 1]));
                assert(buf@ =~= old(buf)@ + acts0.take(i as int).map_values(
                    |e: (ActKey, Vec<Tag>)| unit_entry_cmd(e),
                ));
            }
        }
        proof {
            assert(acts0.take(i as int) =~= acts0);
        }
        let ghost mid = buf@;
        let mut k: usize = 0;
        while self.acts_pos.len() > 0
            invariant
                pos0.len() == m0,
                k <= pos0.len(),
                self.acts_pos@ =~= pos0.skip(k as int),
                self.acts@.len() == 0,
                buf@ == mid + pos0.take(k as int).map_values(
                    |e: (PosKey, Vec<Tag>)| pos_entry_cmd(e),
                ),
            decreases self.acts_pos@.len(),
        {
            let entry = self.acts_pos.remove(0);
            proof {
                assert(pos0.skip(k as int)[0] == pos0[k as int]);
                assert(pos0.skip(k as int).skip(1) =~= pos0.skip(k + 1));
            }
            buf.push(
                UnitCommand {
                    ability: entry.0.0,
                    target: Some(Target::Pos(entry.0.1)),
                    unit_tags: entry.1,
                    queue: entry.0.2,
                },
            );
            k = k + 1;
            proof {
                assert(pos0.take(k as int) =~= pos0.take(k - 1).push(pos0[k - 1]));
                assert(buf@ =~= mid + pos0.take(k as int).map_values(
                    |e: (PosKey, Vec<Tag>)| pos_entry_cmd(e),
                ));
            }
        }
        proof {
            assert(pos0.take(k as int) =~= pos0);
            assert(buf@ =~= old(buf)@ + acts0.map_values(|e: (ActKey, Vec<Tag>)| unit_entry_cmd(e))
                + pos0.map_values(|e: (PosKey, Vec<Tag>)| pos_entry_cmd(e)));
        }
    }
}

/// The first entry for the given act, if any.
fn find_act(acts: &Vec<(Act, Vec<Tag>)>, act: Act) -> (r: Option<usize>)
    ensures
        r matches Some(j) ==> j < acts@.len() && acts@[j as int].0 == act,
        r is None ==> forall|i: int| 0 <= i < acts@.len() ==> acts@[i].0 != act,
{
    let mut j: usize = 0;
    while j < acts.len()
        invariant
            j <= acts.len(),
            forall|i: int| 0 <= i < j ==> acts@[i].0 != act,
        decreases acts.len() - j,
    {
        if acts[j].0 == act {
            return Some(j);
        }
        j = j + 1;
    }
    None
}

/// Batches acts over integer positions: acts equal in every field share
/// one unit set, whatever their target.
#[derive(Debug, Default, Clone, PartialEq, Eq)]
pub struct IActions {
    acts: Vec<(Act, Vec<Tag>)>,
}

impl IActions {
    /// The merged entries, as contracts see them.
    pub closed spec fn spec_acts(&self) -> Seq<(Act, Vec<Tag>)> {
        self.acts@
    }

    /// An empty batch.
    pub fn new() -> (r: IActions)
        ensures
            r.spec_acts().len() == 0,
    {
        IActions { acts: Vec::new() }
    }

    /// Whether nothing has been batched.
    pub fn is_empty(&self) -> (r: bool)
        ensures
            r == (self.spec_acts().len() == 0),
    {
        self.acts.is_empty()
    }

    /// Record one act for one unit.
    pub fn add(&mut self, act: Act, tag: Tag)
        ensures
            ibatched(old(self).spec_acts(), final(self).spec_acts(), act, seq![tag]),
    {
        let mut tags: Vec<Tag> = Vec::new();
        tags.push(tag);
        proof {
            assert(tags@ =~= seq![tag]);
        }
        self.add_batch(act, tags);
    }

    /// Record one act for a batch of units.
    pub fn add_batch(&mut self, act: Act, tags: Vec<Tag>)
        ensures
            ibatched(old(self).spec_acts(), final(self).spec_acts(), act, tags@),
    {
        match find_act(&self.acts, act) {
            Some(j) => {
                let mut entry = self.acts.remove(j);
                merge_tags(&mut entry.1, &tags);
                self.acts.push(entry);
                proof {
                    let acts0 = old(self).acts@;
                    let acts1 = self.acts@;
                    assert(acts1.last() == entry);
                    assert(acts1 =~= acts0.remove(j as int).push(entry));
                    assert(0 <= j < acts0.len() && acts0[j as int].0 == act && acts1 =~= acts0.remove(
                        j as int,
                    ).push(acts1.last()) && acts1.last().1@.to_set() == acts0[j as int].1@.to_set()
                        + tags@.to_set() && (acts0[j as int].1@.no_duplicates()
                        ==> acts1.last().1@.no_duplicates()));
                }
            },
            None => {
                self.acts.push((act, dedup_tags(&tags)));
                proof {
                    let acts0 = old(self).acts@;
                    let acts1 = self.acts@;
                    assert(acts1 =~= acts0.push(acts1.last()));
                }
            },
        }
    }

    /// Move every batched command into `buf`, in entry order, and empty
    /// this batch.
    pub fn flush_to_vec(&mut self, buf: &mut Vec<UnitCommand>)
        ensures
            final(self).spec_acts().len() == 0,
            final(buf)@ == old(buf)@ + old(self).spec_acts().map_values(
                |e: (Act, Vec<Tag>)| iact_entry_cmd(e),
            ),
    {
        let mut i: usize = 0;
        let n0 = self.acts.len();
        let ghost acts0 = self.acts@;
        while self.acts.len() > 0
            invariant
                acts0.len() == n0,
                i <= acts0.len(),
                self.acts@ =~= acts0.skip(i as int),
                buf@ == old(buf)@ + acts0.take(i as int).map_values(
                    |e: (Act, Vec<Tag>)| iact_entry_cmd(e),
                ),
            decreases self.acts@.len(),
        {
            let entry = self.acts.remove(0);
            proof {
                assert(acts0.skip(i as int)[0] == acts0[i as int]);
                assert(acts0.skip(i as int).skip(1) =~= acts0.skip(i + 1));
            }
            buf.push(
                UnitCommand {
                    ability: entry.0.ability,
                    target: entry.0.target,
                    unit_tags: entry.1,
                    queue: entry.0.queue,
                },
            );
            i = i + 1;
            proof {
                assert(acts0.take(i as int) =~= acts0.take(i - 1).push(acts0[i - 1]));
                assert(buf@ =~= old(buf)@ + acts0.take(i as int).map_values(
                    |e: (Act, Vec<Tag>)| iact_entry_cmd(e),
                ));
            }
        }
        proof {
            assert(acts0.take(i as int) =~= acts0);
        }
    }
}

/// The command one merged entry turns into.
pub open spec fn iact_entry_cmd(e: (Act, Vec<Tag>)) -> UnitCommand {
    UnitCommand {
        ability: e.0.ability,
        target: e.0.target,
        unit_tags: e.1,
        queue: e.0.queue,
    }
}

/// How recording `act` for `tags` changes the entry list: the units
/// merge into the entry for the same act, or a new entry is appended.
pub open spec fn ibatched(
    acts0: Seq<(Act, Vec<Tag>)>,
    acts1: Seq<(Act, Vec<Tag>)>,
    act: Act,
    tags: Seq<Tag>,
) -> bool {
    &&& acts1.len() >= 1
    &&& acts1.last().0 == act
    &&& if (exists|j: int| 0 <= j < acts0.len() && acts0[j].0 == act) {
        exists|j: int|
            {
                &&& 0 <= j < acts0.len()
                &&& acts0[j].0 == act
                &&& acts1 =~= acts0.remove(j).push(acts1.last())
                &&& acts1.last().1@.to_set() == acts0[j].1@.to_set() + tags.to_set()
                &&& (acts0[j].1@.no_duplicates() ==> acts1.last().1@.no_duplicates())
            }
    } else {
        &&& acts1 =~= acts0.push(acts1.last())
        &&& acts1.last().1@.to_set() == tags.to_set()
        &&& acts1.last().1@.no_duplicates()
    }
}

/// The command one merged unit-target entry turns into.
pub open spec fn unit_entry_cmd(e: (ActKey, Vec<Tag>)) -> UnitCommand {
    UnitCommand {
        ability: e.0.0,
        target: match e.0.1 {
            Some(t) => Some(Target::Unit(t)),
            None => None,
        },
        unit_tags: e.1,
        queue: e.0.2,
    }
}

/// The command one positional entry turns into.
pub open spec fn pos_entry_cmd(e: (PosKey, Vec<Tag>)) -> UnitCommand {
    UnitCommand {
        ability: e.0.0,
        target: Some(Target::Pos(e.0.1)),
        unit_tags: e.1,
        queue: e.0.2,
    }
}

/// How recording `act` for `tags` changes the entry lists: a positional
/// act is appended as its own duplicate-free batch; any other act merges
/// its units into the entry that shares its key, or appends a new one.
pub open spec fn batched(
    acts0: Seq<(ActKey, Vec<Tag>)>,
    pos0: Seq<(PosKey, Vec<Tag>)>,
    acts1: Seq<(ActKey, Vec<Tag>)>,
    pos1: Seq<(PosKey, Vec<Tag>)>,
    act: Act,
    tags: Seq<Tag>,
) -> bool {
    match act.target {
        Some(Target::Pos(pos)) => {
            &&& acts1 == acts0
            &&& pos1.len() == pos0.len() + 1
            &&& pos1.take(pos0.len() as int) == pos0
            &&& pos1.last().0 == (act.ability, pos, act.queue)
            &&& pos1.last().1@.to_set() == tags.to_set()
            &&& pos1.last().1@.no_duplicates()
        },
        other => {
            let target = match other {
                Some(Target::Unit(t)) => Some(t),
                _ => None,
            };
            let key = (act.ability, target, act.queue);
            &&& pos1 == pos0
            &&& acts1.len() >= 1
            &&& acts1.last().0 == key
            &&& if (exists|j: int| 0 <= j < acts0.len() && acts0[j].0 == key) {
                exists|j: int|
                    {
                        &&& 0 <= j < acts0.len()
                        &&& acts0[j].0 == key
                        &&& acts1 =~= acts0.remove(j).push(acts1.last())
                        &&& acts1.last().1@.to_set() == acts0[j].1@.to_set() + tags.to_set()
                        &&& (acts0[j].1@.no_duplicates() ==> acts1.last().1@.no_duplicates())
                    }
            } else {
                &&& acts1 =~= acts0.push(acts1.last())
                &&& acts1.last().1@.to_set() == tags.to_set()
                &&& acts1.last().1@.no_duplicates()
            }
        },
    }
}

} // verus!
