//! The motivation story: three people, the links between them, and what an
//! eavesdropper gets to see, told in eleven steps.

use vstd::prelude::*;
use crate::scene::NextStep;
use crate::target_value::TargetValue;
use crate::utils::{units, vec2, Vec2, ONE};

verus! {

/// Damping rate of everything in this scene: 5.2 per second.
pub const EASE_SPEED: u32 = 5_200_000;

/// How many steps the story has.
pub const STORY_STEPS: u32 = 11;

/// A named box that can move and grow.
pub struct Person {
    pub pos: TargetValue<Vec2>,
    pub scale: TargetValue<i64>,
    pub name: String,
}

/// A [`Person`] as contracts see it.
pub ghost struct PersonView {
    pub pos: TargetValue<Vec2>,
    pub scale: TargetValue<i64>,
    pub name: Seq<char>,
}

impl View for Person {
    type V = PersonView;

    open spec fn view(&self) -> PersonView {
        PersonView { pos: self.pos, scale: self.scale, name: self.name@ }
    }
}

impl PersonView {
    /// A person who rests at `pos` and is not shown yet.
    pub open spec fn hidden(name: Seq<char>, pos: Vec2) -> PersonView {
        PersonView {
            pos: TargetValue { value: pos, target: pos, speed: EASE_SPEED },
            scale: TargetValue { value: 0, target: 0, speed: EASE_SPEED },
            name,
        }
    }

    /// The person with the scale heading for full size.
    pub open spec fn shown(self) -> PersonView {
        PersonView { scale: self.scale.aimed(ONE), ..self }
    }

    /// The person heading for `pos`.
    pub open spec fn sent_to(self, pos: Vec2) -> PersonView {
        PersonView { pos: self.pos.aimed(pos), ..self }
    }

    /// The person after one tick of `dt` microseconds.
    pub open spec fn tick(self, dt: u32) -> PersonView {
        PersonView {
            pos: self.pos.tick_spec(dt),
            scale: self.scale.tick_spec(dt),
            name: self.name,
        }
    }
}

impl Person {
    pub fn new(name: &str, pos: Vec2) -> (r: Person)
        ensures
            r@ == PersonView::hidden(name@, pos),
    {
        Person {
            pos: TargetValue::new(pos, EASE_SPEED),
            name: name.to_owned(),
            scale: TargetValue::new(0, EASE_SPEED),
        }
    }

    pub fn update(&mut self, dt: u32)
        ensures
            final(self)@ == old(self)@.tick(dt),
    {
        self.scale.update(dt);
        self.pos.update(dt);
    }
}

/// The three people and the strengths of everything drawn between them.
pub struct MotivationScene {
    pub alice: Person,
    pub bob: Person,
    pub carol: Person,
    /// How many steps have been taken.
    pub step: u32,
    /// Carol's two taps: on the line, and on Bob.
    pub connections: (TargetValue<i64>, TargetValue<i64>),
    /// The encrypted tunnel between Alice and Bob.
    pub https: TargetValue<i64>,
    /// The address that stays readable on the tunnel.
    pub connection_id: TargetValue<i64>,
    /// The cross over Alice.
    pub alice_dead: TargetValue<i64>,
    /// The overlay network that hides the address.
    pub tor_visible: TargetValue<i64>,
}

/// A [`MotivationScene`] as contracts see it.
pub ghost struct MotivationView {
    pub alice: PersonView,
    pub bob: PersonView,
    pub carol: PersonView,
    pub step: u32,
    pub connections: (TargetValue<i64>, TargetValue<i64>),
    pub https: TargetValue<i64>,
    pub connection_id: TargetValue<i64>,
    pub alice_dead: TargetValue<i64>,
    pub tor_visible: TargetValue<i64>,
}

impl View for MotivationScene {
    type V = MotivationView;

    open spec fn view(&self) -> MotivationView {
        MotivationView {
            alice: self.alice@,
            bob: self.bob@,
            carol: self.carol@,
            step: self.step,
            connections: self.connections,
            https: self.https,
            connection_id: self.connection_id,
            alice_dead: self.alice_dead,
            tor_visible: self.tor_visible,
        }
    }
}

/// A strength that rests at zero.
pub open spec fn faded() -> TargetValue<i64> {
    TargetValue { value: 0, target: 0, speed: EASE_SPEED }
}

impl MotivationView {
    /// The scene before its first step: everybody at the centre and
    /// nothing shown.
    pub open spec fn initial() -> MotivationView {
        MotivationView {
            alice: PersonView::hidden("Alice"@, units(0, 0)),
            bob: PersonView::hidden("Bob"@, units(0, 0)),
            carol: PersonView::hidden("Carol"@, units(0, 0)),
            step: 0,
            connections: (faded(), faded()),
            https: faded(),
            connection_id: faded(),
            alice_dead: faded(),
            tor_visible: faded(),
        }
    }

    /// How many more steps will be taken.
    pub open spec fn remaining(self) -> nat {
        if self.step < STORY_STEPS {
            (STORY_STEPS - self.step) as nat
        } else {
            0
        }
    }

    /// What the step numbered `self.step` changes, the counter aside.
    pub open spec fn effect(self) -> MotivationView {
        match self.step {
            // Alice appears.
            0 => MotivationView { alice: self.alice.shown(), ..self },
            // Bob appears and the two move apart.
            1 => MotivationView {
                alice: self.alice.sent_to(units(-400, -200)),
                bob: self.bob.shown().sent_to(units(400, -200)),
                ..self
            },
            // Carol appears above them.
            2 => MotivationView { carol: self.carol.shown().sent_to(units(0, 300)), ..self },
            // Carol taps the line.
            3 => MotivationView {
                connections: (self.connections.0.aimed(ONE), self.connections.1),
                ..self
            },
            // Carol reaches most of the way to Bob.
            4 => MotivationView {
                connections: (self.connections.0, self.connections.1.aimed(700_000)),
                ..self
            },
            // The tunnel closes and pushes Carol back.
            5 => MotivationView {
                https: self.https.aimed(ONE),
                connections: (self.connections.0.aimed(800_000), self.connections.1.aimed(0)),
                ..self
            },
            // The address shows on the tunnel.
            6 => MotivationView { connection_id: self.connection_id.aimed(ONE), ..self },
            // Alice is crossed out.
            8 => MotivationView { alice_dead: self.alice_dead.aimed(ONE), ..self },
            // Alice is back.
            9 => MotivationView { alice_dead: self.alice_dead.aimed(0), ..self },
            // The overlay covers the tunnel and Carol lets go.
            10 => MotivationView {
                alice: self.alice.sent_to(units(-480, -200)),
                bob: self.bob.sent_to(units(480, -200)),
                tor_visible: self.tor_visible.aimed(ONE),
                connections: (self.connections.0.aimed(0), self.connections.1),
                ..self
            },
            // Step 7 only swaps the address, which is read off the counter.
            _ => self,
        }
    }

    /// The scene after one request to advance. Past the last step nothing
    /// changes.
    pub open spec fn after_step(self) -> MotivationView {
        if self.step >= STORY_STEPS {
            self
        } else {
            MotivationView { step: (self.step + 1) as u32, ..self.effect() }
        }
    }

    /// The scene after one tick of `dt` microseconds.
    pub open spec fn tick(self, dt: u32) -> MotivationView {
        MotivationView {
            alice: self.alice.tick(dt),
            bob: self.bob.tick(dt),
            carol: self.carol.tick(dt),
            step: self.step,
            connections: (self.connections.0.tick_spec(dt), self.connections.1.tick_spec(dt)),
            https: self.https.tick_spec(dt),
            connection_id: self.connection_id.tick_spec(dt),
            alice_dead: self.alice_dead.tick_spec(dt),
            tor_visible: self.tor_visible.tick_spec(dt),
        }
    }
}

impl MotivationScene {
    pub fn new() -> (r: MotivationScene)
        ensures
            r@ == MotivationView::initial(),
    {
        MotivationScene {
            alice: Person::new("Alice", vec2(0, 0)),
            bob: Person::new("Bob", vec2(0, 0)),
            carol: Person::new("Carol", vec2(0, 0)),
            step: 0,
            connections: (TargetValue::new(0, EASE_SPEED), TargetValue::new(0, EASE_SPEED)),
            https: TargetValue::new(0, EASE_SPEED),
            connection_id: TargetValue::new(0, EASE_SPEED),
            alice_dead: TargetValue::new(0, EASE_SPEED),
            tor_visible: TargetValue::new(0, EASE_SPEED),
        }
    }

    /// Eases every person and every strength toward its target.
    pub fn update(&mut self, dt: u32)
        ensures
            final(self)@ == old(self)@.tick(dt),
    {
        self.alice.update(dt);
        self.bob.update(dt);
        self.carol.update(dt);
        self.connections.0.update(dt);
        self.connections.1.update(dt);
        self.https.update(dt);
        self.connection_id.update(dt);
        self.alice_dead.update(dt);
        self.tor_visible.update(dt);
    }

    /// Starts the story over.
    pub fn reset(&mut self)
        ensures
            final(self)@ == MotivationView::initial(),
    {
        *self = MotivationScene::new();
    }

    /// Takes the next step of the story, if one is left.
    pub fn next_step(&mut self) -> (r: NextStep)
        ensures
            final(self)@ == old(self)@.after_step(),
            r == NextStep::Running <==> old(self)@.remaining() > 0,
    {
        match self.step {
            0 => {
                self.alice.scale.goto(ONE);
            },
            1 => {
                self.alice.pos.goto(vec2(-400, -200));
                self.bob.scale.goto(ONE);
                self.bob.pos.goto(vec2(400, -200));
            },
            2 => {
                self.carol.pos.goto(vec2(0, 300));
                self.carol.scale.goto(ONE);
            },
            3 => {
                self.connections.0.goto(ONE);
            },
            4 => {
                self.connections.1.goto(700_000);
            },
            5 => {
                self.https.goto(ONE);
                self.connections.1.goto(0);
                self.connections.0.goto(800_000);
            },
            6 => {
                self.connection_id.goto(ONE);
            },
            7 => {},
            8 => {
                self.alice_dead.goto(ONE);
            },
            9 => {
                self.alice_dead.goto(0);
            },
            10 => {
                self.alice.pos.goto(vec2(-480, -200));
                self.bob.pos.goto(vec2(480, -200));
                self.tor_visible.goto(ONE);
                self.connections.0.goto(0);
            },
            _ => {
                return NextStep::Finished;
            },
        }
        self.step += 1;
        NextStep::Running
    }
}

} // verus!
