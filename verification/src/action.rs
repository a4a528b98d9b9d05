//! Per-unit action sequences: one unit's queued ability uses, batched
//! across units, and chat actions.

use crate::act::Target;
use crate::ids::Ability;
use crate::linalg::Point2;
use crate::unit::Tag;
use vstd::prelude::*;

verus! {

/// Anything that can stand where a target is expected: a target, a
/// position, a unit tag, an optional target, or nothing.
pub trait ToTarget {
    /// The optional target this value stands for, as contracts see it.
    spec fn spec_to_target(self) -> Option<Target>;

    /// The optional target this value stands for.
    fn to_target(self) -> (r: Option<Target>)
        ensures
            r == self.spec_to_target(),
    ;
}

impl ToTarget for () {
    open spec fn spec_to_target(self) -> Option<Target> {
        None
    }

    fn to_target(self) -> (r: Option<Target>) {
        None
    }
}

impl ToTarget for Target {
    open spec fn spec_to_target(self) -> Option<Target> {
        Some(self)
    }

    fn to_target(self) -> (r: Option<Target>) {
        Some(self)
    }
}

impl ToTarget for Point2 {
    open spec fn spec_to_target(self) -> Option<Target> {
        Some(Target::Pos(self))
    }

    fn to_target(self) -> (r: Option<Target>) {
        Some(Target::Pos(self))
    }
}

impl ToTarget for Tag {
    open spec fn spec_to_target(self) -> Option<Target> {
        Some(Target::Unit(self))
    }

    fn to_target(self) -> (r: Option<Target>) {
        Some(Target::Unit(self))
    }
}

impl ToTarget for Option<Target> {
    open spec fn spec_to_target(self) -> Option<Target> {
        self
    }

    fn to_target(self) -> (r: Option<Target>) {
        self
    }
}

/// One ability use by one unit: the ability and an optional target.
#[derive(Debug, Default, Clone, Copy, PartialEq, Eq, Hash, Structural)]
pub struct UnitAction {
    pub ability: Ability,
    pub target: Option<Target>,
}

impl UnitAction {
    /// The untargeted use of no ability.
    pub fn new() -> (r: UnitAction)
        ensures
            r.ability == Ability(0),
            r.target is None,
    {
        UnitAction { ability: Ability(0), target: None }
    }

    /// A one-action sequence with the given queue flag.
    pub fn queue(self, queue: bool) -> (r: UnitActions)
        ensures
            r.actions@ == seq![self],
            r.queue == queue,
    {
        let mut actions: Vec<UnitAction> = Vec::new();
        actions.push(self);
        proof {
            assert(actions@ =~= seq![self]);
        }
        UnitActions { actions, queue }
    }
}

impl Ability {
    /// This ability aimed at `target`.
    pub fn target<T: ToTarget>(self, target: T) -> (r: UnitAction)
        ensures
            r.ability == self,
            r.target == target.spec_to_target(),
    {
        UnitAction { ability: self, target: target.to_target() }
    }

    /// A one-action sequence using this ability untargeted.
    pub fn queue(self, queue: bool) -> (r: UnitActions)
        ensures
            r.actions@ == seq![UnitAction { ability: self, target: None }],
            r.queue == queue,
    {
        UnitAction { ability: self, target: None }.queue(queue)
    }
}

/// One unit's sequence of actions, and whether the first of them queues
/// behind the unit's current orders.
#[derive(Debug, Default, Clone, PartialEq, Eq, Hash)]
pub struct UnitActions {
    pub actions: Vec<UnitAction>,
    pub queue: bool,
}

impl UnitActions {
    /// An empty, unqueued sequence.
    pub fn new() -> (r: UnitActions)
        ensures
            r.actions@.len() == 0,
            !r.queue,
    {
        UnitActions { actions: Vec::new(), queue: false }
    }

    /// The same sequence with the queue flag set to `queue`.
    pub fn queue(self, queue: bool) -> (r: UnitActions)
        ensures
            r.actions == self.actions,
            r.queue == queue,
    {
        UnitActions { queue, ..self }
    }

    /// Append one action to the sequence.
    pub fn push(&mut self, action: UnitAction)
        ensures
            final(self).actions@ == old(self).actions@.push(action),
            final(self).queue == old(self).queue,
    {
        self.actions.push(action);
    }
}

/// The action sequences of several units, one entry per unit.
#[derive(Debug, Default, Clone, PartialEq, Eq)]
pub struct UnitsActions {
    actions: Vec<(Tag, UnitActions)>,
}

impl UnitsActions {
    /// The entries, as contracts see them.
    pub closed spec fn spec_actions(&self) -> Seq<(Tag, UnitActions)> {
        self.actions@
    }

    /// No unit has actions yet.
    pub fn new() -> (r: UnitsActions)
        ensures
            r.spec_actions().len() == 0,
    {
        UnitsActions { actions: Vec::new() }
    }

    /// Record one unit's action sequence.
    pub fn insert(&mut self, tag: Tag, actions: UnitActions)
        ensures
            final(self).spec_actions() == old(self).spec_actions().push((tag, actions)),
    {
        self.actions.push((tag, actions));
    }
}

/// One chat message: its text and whether it goes to the team channel
/// only rather than to everyone.
#[derive(Debug, Default, Clone, PartialEq, Eq, Hash)]
pub struct ChatMessage {
    pub message: String,
    pub private: bool,
}

/// One chat action as it goes out in an `Action` request: the channel's
/// numeric code and the text.
#[derive(Debug, Clone, PartialEq, Eq, Hash)]
pub struct ChatAction {
    pub channel: u32,
    pub message: String,
}

impl ChatMessage {
    /// The chat action this message turns into: the team channel's code
    /// for a private message, the default broadcast channel otherwise.
    pub fn to_action(self) -> (r: ChatAction)
        ensures
            r.channel == if self.private {
                2u32
            } else {
                0u32
            },
            r.message == self.message,
    {
        ChatAction { channel: if self.private { 2 } else { 0 }, message: self.message }
    }
}

/// Buffers chat actions until they are flushed into one request.
#[derive(Debug, Default, Clone, PartialEq, Eq)]
pub struct Chat {
    msgs: Vec<ChatAction>,
}

impl Chat {
    /// The buffered actions, as contracts see them.
    pub closed spec fn spec_msgs(&self) -> Seq<ChatAction> {
        self.msgs@
    }

    /// An empty buffer.
    pub fn new() -> (r: Chat)
        ensures
            r.spec_msgs().len() == 0,
    {
        Chat { msgs: Vec::new() }
    }

    /// Say something to everyone.
    pub fn say(&mut self, msg: String)
        ensures
            final(self).spec_msgs() == old(self).spec_msgs().push(
                ChatAction { channel: 0, message: msg },
            ),
    {
        self.msgs.push(ChatAction { channel: 0, message: msg });
    }

    /// Log something to the team channel only.
    pub fn log(&mut self, msg: String)
        ensures
            final(self).spec_msgs() == old(self).spec_msgs().push(
                ChatAction { channel: 2, message: msg },
            ),
    {
        self.msgs.push(ChatAction { channel: 2, message: msg });
    }

    /// Move every buffered action into `buf` and empty this buffer.
    pub fn flush_to_vec(&mut self, buf: &mut Vec<ChatAction>)
        ensures
            final(self).spec_msgs().len() == 0,
            final(buf)@ == old(buf)@ + old(self).spec_msgs(),
    {
        buf.append(&mut self.msgs);
    }
}

} // verus!
