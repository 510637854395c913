//! The presentation controller: it owns the scenes and the place in
//! them, hands ticks to the scene on screen and walks from scene to scene.

use vstd::prelude::*;
use crate::catalog::{catalog, is_catalog};
use crate::scene::{Scene, SceneView};

verus! {

/// The keys that the controller tells apart.
#[derive(Clone, Copy, Debug, PartialEq, Eq, Structural)]
pub enum Key {
    Right,
    Space,
    Left,
    Back,
    /// Any key that has no meaning here.
    Other,
}

/// The scenes of the presentation and the index of the one on screen.
pub struct Model {
    pub current: usize,
    pub scenes: Vec<Scene>,
}

/// A [`Model`] as contracts see it.
pub ghost struct ModelView {
    pub current: usize,
    pub scenes: Seq<SceneView>,
}

impl View for Model {
    type V = ModelView;

    open spec fn view(&self) -> ModelView {
        ModelView { current: self.current, scenes: self.scenes@.map_values(|s: Scene| s@) }
    }
}

impl ModelView {
    /// The index names a scene, unless there is none, the scenes can be
    /// counted in a `usize`, and every scene is well formed.
    pub open spec fn wf(self) -> bool {
        &&& self.scenes.len() <= usize::MAX
        &&& self.scenes.len() == 0 ==> self.current == 0
        &&& self.scenes.len() > 0 ==> self.current < self.scenes.len()
        &&& forall|i: int| 0 <= i < self.scenes.len() ==> (#[trigger] self.scenes[i]).wf()
    }

    /// The scene on screen.
    pub open spec fn active(self) -> SceneView
        recommends
            self.current < self.scenes.len(),
    {
        self.scenes[self.current as int]
    }

    /// The same presentation with `scene` in place of the scene on screen.
    pub open spec fn with_active(self, scene: SceneView) -> ModelView
        recommends
            self.current < self.scenes.len(),
    {
        ModelView { current: self.current, scenes: self.scenes.update(self.current as int, scene) }
    }

    /// Leaves the scene on screen, reset, for the one after it; after the
    /// last scene comes the first.
    pub open spec fn next_scene(self) -> ModelView
        recommends
            self.current < self.scenes.len(),
    {
        ModelView {
            current: ((self.current + 1) % (self.scenes.len() as int)) as usize,
            scenes: self.with_active(self.active().rewound()).scenes,
        }
    }

    /// Leaves the scene on screen, reset, for the one before it; before
    /// the first scene comes the last.
    pub open spec fn prev_scene(self) -> ModelView
        recommends
            self.current < self.scenes.len(),
    {
        ModelView {
            current: if self.current == 0 {
                (self.scenes.len() - 1) as usize
            } else {
                (self.current - 1) as usize
            },
            scenes: self.with_active(self.active().rewound()).scenes,
        }
    }

    /// Advances by one step: within the scene on screen while it has a
    /// step left, and on to the next scene once it has none.
    pub open spec fn next_step(self) -> ModelView
        recommends
            self.current < self.scenes.len(),
    {
        if self.active().remaining() > 0 {
            self.with_active(self.active().after_step())
        } else {
            self.next_scene()
        }
    }

    /// What a key does: right and space advance, left and backspace go
    /// back a scene, and any other key does nothing.
    pub open spec fn key_pressed(self, key: Key) -> ModelView
        recommends
            self.current < self.scenes.len(),
    {
        match key {
            Key::Right | Key::Space => self.next_step(),
            Key::Left | Key::Back => self.prev_scene(),
            Key::Other => self,
        }
    }

    /// Whether `after` can follow from this state by one tick of `dt`
    /// microseconds: the scene on screen has ticked, and nothing else has
    /// changed. Without scenes nothing changes at all.
    pub open spec fn ticked(self, after: ModelView, dt: u32) -> bool {
        if self.scenes.len() == 0 {
            after == self
        } else {
            &&& after.current == self.current
            &&& after.scenes.len() == self.scenes.len()
            &&& self.active().ticked(after.active(), dt)
            &&& forall|i: int|
                0 <= i < self.scenes.len() && i != self.current ==> #[trigger] after.scenes[i]
                    == self.scenes[i]
        }
    }

    /// The presentation after `n` calls of [`ModelView::next_scene`].
    pub open spec fn next_scenes(self, n: nat) -> ModelView
        decreases n,
    {
        if n == 0 {
            self
        } else {
            self.next_scenes((n - 1) as nat).next_scene()
        }
    }
}

impl Model {
    /// The presentation at its start: every scene of the catalog at its
    /// beginning, and the first one on screen.
    pub fn new() -> (r: Model)
        ensures
            r@.wf(),
            r@.current == 0,
            is_catalog(r@.scenes),
    {
        let scenes = catalog();
        let r = Model { current: 0, scenes };
        assert forall|i: int| 0 <= i < r@.scenes.len() implies (#[trigger] r@.scenes[i]).wf() by {
            assert(r@.scenes[i] == r.scenes@[i]@);
        }
        r
    }

    /// The scene on screen.
    pub fn current_scene(&self) -> (s: &Scene)
        requires
            self.current < self.scenes@.len(),
        ensures
            *s == self.scenes@[self.current as int],
    {
        &self.scenes[self.current]
    }

    /// Resets the scene on screen and moves on to the next one, or to the
    /// first after the last.
    pub fn next_scene(&mut self)
        requires
            old(self)@.wf(),
            old(self)@.scenes.len() > 0,
        ensures
            final(self)@.wf(),
            final(self)@ == old(self)@.next_scene(),
    {
        let i = self.current;
        assert(self@.scenes[i as int] == self.scenes@[i as int]@);
        let n = self.scenes.len();
        assert(i < n);
        self.scenes[i].reset();
        self.current = (i + 1) % n;
        assert(self@.scenes =~= old(self)@.next_scene().scenes);
    }

    /// Resets the scene on screen and moves back to the one before it, or
    /// to the last before the first.
    pub fn prev_scene(&mut self)
        requires
            old(self)@.wf(),
            old(self)@.scenes.len() > 0,
        ensures
            final(self)@.wf(),
            final(self)@ == old(self)@.prev_scene(),
    {
        let i = self.current;
        assert(self@.scenes[i as int] == self.scenes@[i as int]@);
        self.scenes[i].reset();
        if i == 0 {
            self.current = self.scenes.len() - 1;
        } else {
            self.current = i - 1;
        }
        assert(self@.scenes =~= old(self)@.prev_scene().scenes);
    }

    /// Asks the scene on screen for its next step, and moves on to the
    /// next scene when it has none left.
    pub fn next_step(&mut self)
        requires
            old(self)@.wf(),
            old(self)@.scenes.len() > 0,
        ensures
            final(self)@.wf(),
            final(self)@ == old(self)@.next_step(),
    {
        let i = self.current;
        assert(self@.scenes[i as int] == self.scenes@[i as int]@);
        let answer = self.scenes[i].next_step();
        assert(self@.scenes =~= old(self)@.with_active(old(self)@.active().after_step()).scenes);
        if answer.is_finished() {
            assert(self@.scenes =~= old(self)@.scenes);
            self.next_scene();
        }
    }

    /// Hands one tick of `dt` microseconds to the scene on screen. `t` is
    /// the time since the presentation began. Without scenes nothing
    /// happens.
    pub fn update(&mut self, dt: u32, t: u64)
        requires
            old(self)@.wf(),
        ensures
            final(self)@.wf(),
            old(self)@.ticked(final(self)@, dt),
    {
        if self.scenes.len() > 0 {
            let i = self.current;
            assert(self@.scenes[i as int] == self.scenes@[i as int]@);
            self.scenes[i].update(dt, t);
            assert(self@.scenes[i as int] == self.scenes@[i as int]@);
            assert forall|k: int| 0 <= k < self@.scenes.len() implies (
            #[trigger] self@.scenes[k]).wf() by {
                if k != i {
                    assert(self@.scenes[k] == old(self)@.scenes[k]);
                }
            }
        }
    }

    /// Carries out what the key stands for.
    pub fn key_pressed(&mut self, key: Key)
        requires
            old(self)@.wf(),
            old(self)@.scenes.len() > 0,
        ensures
            final(self)@.wf(),
            final(self)@ == old(self)@.key_pressed(key),
    {
        match key {
            Key::Right | Key::Space => self.next_step(),
            Key::Left | Key::Back => self.prev_scene(),
            Key::Other => {},
        }
    }
}

/// Moving on `n` times from scene `current` of `len` leads to scene
/// `(current + n) % len`, and so after `len` moves back to where it began.
/// The number of scenes never changes.
pub proof fn lemma_next_scene_cycles(v: ModelView, n: nat)
    requires
        v.wf(),
        v.scenes.len() > 0,
    ensures
        v.next_scenes(n).wf(),
        v.next_scenes(n).scenes.len() == v.scenes.len(),
        v.next_scenes(n).current == (v.current + n) % (v.scenes.len() as int),
        n == v.scenes.len() ==> v.next_scenes(n).current == v.current,
    decreases n,
{
    let len = v.scenes.len() as int;
    if n == 0 {
        vstd::arithmetic::div_mod::lemma_small_mod(v.current as nat, len as nat);
    } else {
        let m = (n - 1) as nat;
        lemma_next_scene_cycles(v, m);
        let w = v.next_scenes(m);
        lemma_scene_change_keeps_wf(w);
        // ((c + m) % len + 1) % len == (c + m + 1) % len
        vstd::arithmetic::div_mod::lemma_add_mod_noop(v.current + m, 1, len);
        vstd::arithmetic::div_mod::lemma_mod_twice(v.current + m, len);
        vstd::arithmetic::div_mod::lemma_add_mod_noop((v.current + m) % len, 1, len);
        if n == len {
            vstd::arithmetic::div_mod::lemma_mod_add_multiples_vanish(v.current as int, len);
            vstd::arithmetic::div_mod::lemma_small_mod(v.current as nat, len as nat);
        }
    }
}

/// Moving to the next or to the previous scene keeps the presentation
/// well formed and its scenes in place; going back from the first scene
/// leads to the last, and going back undoes moving on.
pub proof fn lemma_scene_change_keeps_wf(v: ModelView)
    requires
        v.wf(),
        v.scenes.len() > 0,
    ensures
        v.next_scene().wf(),
        v.prev_scene().wf(),
        v.next_scene().scenes.len() == v.scenes.len(),
        v.prev_scene().scenes.len() == v.scenes.len(),
        v.current == 0 ==> v.prev_scene().current == v.scenes.len() - 1,
        v.next_scene().prev_scene().current == v.current,
        v.prev_scene().next_scene().current == v.current,
{
    let len = v.scenes.len() as int;
    let scenes = v.with_active(v.active().rewound()).scenes;
    assert forall|i: int| 0 <= i < scenes.len() implies (#[trigger] scenes[i]).wf() by {
        if i != v.current {
            assert(scenes[i] == v.scenes[i]);
        }
    }
    if v.current + 1 < len {
        vstd::arithmetic::div_mod::lemma_small_mod((v.current + 1) as nat, len as nat);
    } else {
        vstd::arithmetic::div_mod::lemma_mod_self_0(len);
    }
    let p = v.prev_scene();
    if p.current + 1 < len {
        vstd::arithmetic::div_mod::lemma_small_mod((p.current + 1) as nat, len as nat);
    }
}

} // verus!
