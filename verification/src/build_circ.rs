//! The circuit walkthrough: a marker travels between four network nodes
//! while a caption names the cell that is on the wire.

use vstd::prelude::*;
use crate::scene::NextStep;
use crate::target_value::TargetValue;
use crate::utils::{units, vec2, Vec2, ONE};

verus! {

/// Damping rate of a node's position and scale: 5.2 per second.
pub const NODE_SPEED: u32 = 5_200_000;

/// Damping rate of the travelling marker: 2.2 per second.
pub const MARKER_SPEED: u32 = 2_200_000;

/// How many steps the walkthrough has.
pub const CIRCUIT_STEPS: u32 = 22;

/// A labelled node of the diagram.
pub struct NetNode {
    pub name: String,
    pub pos: TargetValue<Vec2>,
    pub scale: TargetValue<i64>,
}

/// A [`NetNode`] as contracts see it.
pub ghost struct NetNodeView {
    pub name: Seq<char>,
    pub pos: TargetValue<Vec2>,
    pub scale: TargetValue<i64>,
}

impl View for NetNode {
    type V = NetNodeView;

    open spec fn view(&self) -> NetNodeView {
        NetNodeView { name: self.name@, pos: self.pos, scale: self.scale }
    }
}

impl NetNodeView {
    /// A node that rests at `pos` and is not shown yet.
    pub open spec fn hidden(name: Seq<char>, pos: Vec2) -> NetNodeView {
        NetNodeView {
            name,
            pos: TargetValue { value: pos, target: pos, speed: NODE_SPEED },
            scale: TargetValue { value: 0, target: 0, speed: NODE_SPEED },
        }
    }

    /// The node with its scale heading for full size.
    pub open spec fn shown(self) -> NetNodeView {
        NetNodeView {
            scale: self.scale.aimed(ONE),
            ..self
        }
    }

    /// The node after one tick of `dt` microseconds.
    pub open spec fn tick(self, dt: u32) -> NetNodeView {
        NetNodeView {
            name: self.name,
            pos: self.pos.tick_spec(dt),
            scale: self.scale.tick_spec(dt),
        }
    }
}

impl NetNode {
    pub fn new(name: &str, pos: Vec2) -> (r: NetNode)
        ensures
            r@ == NetNodeView::hidden(name@, pos),
    {
        NetNode {
            name: name.to_owned(),
            pos: TargetValue::new(pos, NODE_SPEED),
            scale: TargetValue::new(0, NODE_SPEED),
        }
    }

    pub fn update(&mut self, dt: u32)
        ensures
            final(self)@ == old(self)@.tick(dt),
    {
        self.pos.update(dt);
        self.scale.update(dt);
    }
}

/// The four nodes that the marker can head for.
#[derive(Clone, Copy, Debug, PartialEq, Eq, Structural)]
pub enum Hop {
    Alice,
    Or1,
    Or2,
    Bob,
}

/// Where the marker is sent at each step; `None` where it stays.
pub open spec fn spec_hop_at(step: u32) -> Option<Hop> {
    if step == 2 || step == 4 || step == 6 || step == 9 || step == 13 || step == 15 || step == 19 {
        Some(Hop::Or1)
    } else if step == 3 || step == 7 || step == 14 || step == 20 {
        Some(Hop::Alice)
    } else if step == 5 || step == 10 || step == 12 || step == 16 || step == 18 {
        Some(Hop::Or2)
    } else if step == 11 || step == 17 {
        Some(Hop::Bob)
    } else {
        None
    }
}

/// The caption that each step puts up; `None` where the caption stays.
pub open spec fn spec_caption_at(step: u32) -> Option<Seq<char>> {
    match step {
        2 => Some("create c1, <g^x1, OR1_k>"@),
        3 => Some("created c1, g^y1, H(key_1)"@),
        4 => Some("relay c1 { extend, OR2, <g^x2, OR2_k> }"@),
        5 => Some("create c2, <g^x2, OR2_k>"@),
        6 => Some("created c2, g^y2, H(key_2)"@),
        7 => Some("relay c2 { extended, g^y2, H(key_2) }"@),
        8 => Some("-- circuit established --"@),
        9 => Some("Relay c1 {{ begin \"https://bobs-leaks.org\" }}"@),
        10 => Some("Relay c2 { begin \"https://bobs-leaks.org\" }"@),
        11 => Some("-- handshake --"@),
        12 => Some("-- handshake --"@),
        13 => Some("relay c2 { connected }"@),
        14 => Some("relay c1 {{ connected }}"@),
        15 => Some("relay c1 {{ data, \"HTTP GET ...\" }}"@),
        16 => Some("relay c2 { data, \"HTTP GET ...\" }"@),
        17 => Some("\"HTTP GET\""@),
        18 => Some("(response)"@),
        19 => Some("relay c2 { (response) }"@),
        20 => Some("relay c1 {{ (response) }}"@),
        21 => Some("-- website --"@),
        _ => None,
    }
}

/// Computes [`spec_hop_at`].
#[verifier::when_used_as_spec(spec_hop_at)]
pub fn hop_at(step: u32) -> (h: Option<Hop>)
    ensures
        h == spec_hop_at(step),
{
    match step {
        2 | 4 | 6 | 9 | 13 | 15 | 19 => Some(Hop::Or1),
        3 | 7 | 14 | 20 => Some(Hop::Alice),
        5 | 10 | 12 | 16 | 18 => Some(Hop::Or2),
        11 | 17 => Some(Hop::Bob),
        _ => None,
    }
}

/// Computes [`spec_caption_at`].
pub fn caption_at(step: u32) -> (c: Option<&'static str>)
    ensures
        c is Some == spec_caption_at(step) is Some,
        c is Some ==> c->0@ == spec_caption_at(step)->0,
{
    match step {
        2 => Some("create c1, <g^x1, OR1_k>"),
        3 => Some("created c1, g^y1, H(key_1)"),
        4 => Some("relay c1 { extend, OR2, <g^x2, OR2_k> }"),
        5 => Some("create c2, <g^x2, OR2_k>"),
        6 => Some("created c2, g^y2, H(key_2)"),
        7 => Some("relay c2 { extended, g^y2, H(key_2) }"),
        8 => Some("-- circuit established --"),
        9 => Some("Relay c1 {{ begin \"https://bobs-leaks.org\" }}"),
        10 => Some("Relay c2 { begin \"https://bobs-leaks.org\" }"),
        11 => Some("-- handshake --"),
        12 => Some("-- handshake --"),
        13 => Some("relay c2 { connected }"),
        14 => Some("relay c1 {{ connected }}"),
        15 => Some("relay c1 {{ data, \"HTTP GET ...\" }}"),
        16 => Some("relay c2 { data, \"HTTP GET ...\" }"),
        17 => Some("\"HTTP GET\""),
        18 => Some("(response)"),
        19 => Some("relay c2 { (response) }"),
        20 => Some("relay c1 {{ (response) }}"),
        21 => Some("-- website --"),
        _ => None,
    }
}

/// The whole diagram: two ends, two relays, the marker and the caption.
pub struct BuildCircScene {
    pub alice: NetNode,
    pub bob: NetNode,
    pub ors: (NetNode, NetNode),
    /// The marker that travels between the nodes.
    pub message: TargetValue<Vec2>,
    /// The caption.
    pub msg: String,
    /// How many steps have been taken.
    pub step: u32,
}

/// A [`BuildCircScene`] as contracts see it.
pub ghost struct BuildCircView {
    pub alice: NetNodeView,
    pub bob: NetNodeView,
    pub ors: (NetNodeView, NetNodeView),
    pub message: TargetValue<Vec2>,
    pub msg: Seq<char>,
    pub step: u32,
}

impl View for BuildCircScene {
    type V = BuildCircView;

    open spec fn view(&self) -> BuildCircView {
        BuildCircView {
            alice: self.alice@,
            bob: self.bob@,
            ors: (self.ors.0@, self.ors.1@),
            message: self.message,
            msg: self.msg@,
            step: self.step,
        }
    }
}

impl BuildCircView {
    /// The scene before its first step: nobody shown, the marker resting
    /// on Alice, no caption.
    pub open spec fn initial() -> BuildCircView {
        BuildCircView {
            alice: NetNodeView::hidden("Alice"@, units(-600, 0)),
            bob: NetNodeView::hidden("Bob"@, units(600, 0)),
            ors: (
                NetNodeView::hidden("OR1"@, units(-200, 0)),
                NetNodeView::hidden("OR2"@, units(200, 0)),
            ),
            message: TargetValue {
                value: units(-600, 0),
                target: units(-600, 0),
                speed: MARKER_SPEED,
            },
            msg: Seq::empty(),
            step: 0,
        }
    }

    /// The node that a hop names.
    pub open spec fn node(self, hop: Hop) -> NetNodeView {
        match hop {
            Hop::Alice => self.alice,
            Hop::Or1 => self.ors.0,
            Hop::Or2 => self.ors.1,
            Hop::Bob => self.bob,
        }
    }

    /// How many more steps will be taken.
    pub open spec fn remaining(self) -> nat {
        if self.step < CIRCUIT_STEPS {
            (CIRCUIT_STEPS - self.step) as nat
        } else {
            0
        }
    }

    /// The scene after one request to advance. The first step shows the
    /// two ends and the second the two relays; every later one sends the
    /// marker to where its node is now and puts up its caption. Past the
    /// last step nothing changes.
    pub open spec fn after_step(self) -> BuildCircView {
        if self.step >= CIRCUIT_STEPS {
            self
        } else {
            BuildCircView {
                alice: if self.step == 0 {
                    self.alice.shown()
                } else {
                    self.alice
                },
                bob: if self.step == 0 {
                    self.bob.shown()
                } else {
                    self.bob
                },
                ors: if self.step == 1 {
                    (self.ors.0.shown(), self.ors.1.shown())
                } else {
                    self.ors
                },
                message: match spec_hop_at(self.step) {
                    Some(hop) => self.message.aimed(self.node(hop).pos.value),
                    None => self.message,
                },
                msg: match spec_caption_at(self.step) {
                    Some(caption) => caption,
                    None => self.msg,
                },
                step: (self.step + 1) as u32,
            }
        }
    }

    /// The scene after one tick of `dt` microseconds.
    pub open spec fn tick(self, dt: u32) -> BuildCircView {
        BuildCircView {
            alice: self.alice.tick(dt),
            bob: self.bob.tick(dt),
            ors: (self.ors.0.tick(dt), self.ors.1.tick(dt)),
            message: self.message.tick_spec(dt),
            msg: self.msg,
            step: self.step,
        }
    }
}

impl BuildCircScene {
    pub fn new() -> (r: BuildCircScene)
        ensures
            r@ == BuildCircView::initial(),
    {
        let alice = NetNode::new("Alice", vec2(-600, 0));
        let message = TargetValue::new(alice.pos.get(), MARKER_SPEED);
        let bob = NetNode::new("Bob", vec2(600, 0));
        let ors = (NetNode::new("OR1", vec2(-200, 0)), NetNode::new("OR2", vec2(200, 0)));
        BuildCircScene { alice, bob, message, ors, msg: String::new(), step: 0 }
    }

    /// Where the node that `hop` names is now.
    pub fn hop_pos(&self, hop: Hop) -> (p: Vec2)
        ensures
            p == self@.node(hop).pos.value,
    {
        match hop {
            Hop::Alice => self.alice.pos.get(),
            Hop::Or1 => self.ors.0.pos.get(),
            Hop::Or2 => self.ors.1.pos.get(),
            Hop::Bob => self.bob.pos.get(),
        }
    }

    /// Eases every node and the marker toward their targets.
    pub fn update(&mut self, dt: u32)
        ensures
            final(self)@ == old(self)@.tick(dt),
    {
        self.alice.update(dt);
        self.bob.update(dt);
        self.ors.0.update(dt);
        self.ors.1.update(dt);
        self.message.update(dt);
    }

    /// Starts the walkthrough over.
    pub fn reset(&mut self)
        ensures
            final(self)@ == BuildCircView::initial(),
    {
        *self = BuildCircScene::new();
    }

    /// Takes the next step of the walkthrough, if one is left.
    pub fn next_step(&mut self) -> (r: NextStep)
        ensures
            final(self)@ == old(self)@.after_step(),
            r == NextStep::Running <==> old(self)@.remaining() > 0,
    {
        if self.step >= CIRCUIT_STEPS {
            return NextStep::Finished;
        }
        if self.step == 0 {
            self.alice.scale.goto(ONE);
            self.bob.scale.goto(ONE);
        } else if self.step == 1 {
            self.ors.0.scale.goto(ONE);
            self.ors.1.scale.goto(ONE);
        }
        match hop_at(self.step) {
            Some(hop) => {
                let p = self.hop_pos(hop);
                self.message.goto(p);
            },
            None => {},
        }
        match caption_at(self.step) {
            Some(caption) => {
                self.msg = caption.to_owned();
            },
            None => {},
        }
        self.step += 1;
        NextStep::Running
    }
}

} // verus!
