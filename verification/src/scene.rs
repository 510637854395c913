//! What every scene can do, and the closed set of scenes.

use vstd::prelude::*;
use crate::build_circ::{BuildCircScene, BuildCircView};
use crate::funding::{FundingScene, SponsorView};
use crate::motivation::{MotivationScene, MotivationView};
use crate::quote::{QuoteScene, QuoteView};
use crate::slides::{DisadvantageScene, FunctionalityScene, GeneralScene};
use crate::timeline::{TimelineScene, TimelineView};
use crate::title::{TitleScene, TitleView};

verus! {

/// What a scene answers when asked to advance by one step.
#[derive(Clone, Copy, Debug, PartialEq, Eq, Structural)]
pub enum NextStep {
    /// The step was taken and the scene stays on screen.
    Running,
    /// The scene has no step left to take.
    Finished,
}

impl NextStep {
    pub fn is_finished(&self) -> (b: bool)
        ensures
            b == (*self == NextStep::Finished),
    {
        match self {
            NextStep::Finished => true,
            NextStep::Running => false,
        }
    }
}

/// One unit of the presentation. The set of scenes is closed: each kind
/// carries its own state, and every capability switches on the kind.
pub enum Scene {
    Title(TitleScene),
    General(GeneralScene),
    Timeline(TimelineScene),
    Funding(FundingScene),
    Quote(QuoteScene),
    Motivation(MotivationScene),
    Functionality(FunctionalityScene),
    BuildCirc(BuildCircScene),
    Disadvantage(DisadvantageScene),
}

/// A [`Scene`] as contracts see it.
pub ghost enum SceneView {
    Title(TitleView),
    General,
    Timeline(TimelineView),
    Funding(Seq<SponsorView>),
    Quote(QuoteView),
    Motivation(MotivationView),
    Functionality,
    BuildCirc(BuildCircView),
    Disadvantage,
}

impl View for Scene {
    type V = SceneView;

    open spec fn view(&self) -> SceneView {
        match self {
            Scene::Title(s) => SceneView::Title(s@),
            Scene::General(_) => SceneView::General,
            Scene::Timeline(s) => SceneView::Timeline(s@),
            Scene::Funding(s) => SceneView::Funding(s@),
            Scene::Quote(s) => SceneView::Quote(s@),
            Scene::Motivation(s) => SceneView::Motivation(s@),
            Scene::Functionality(_) => SceneView::Functionality,
            Scene::BuildCirc(s) => SceneView::BuildCirc(s@),
            Scene::Disadvantage(_) => SceneView::Disadvantage,
        }
    }
}

impl SceneView {
    /// What the scene's own operations rely on.
    pub open spec fn wf(self) -> bool {
        match self {
            SceneView::Title(s) => s.wf(),
            SceneView::Timeline(s) => s.wf(),
            _ => true,
        }
    }

    /// How many more requests to advance the scene will answer with
    /// [`NextStep::Running`]. Scenes that are not sequenced have none.
    pub open spec fn remaining(self) -> nat {
        match self {
            SceneView::Timeline(s) => s.remaining(),
            SceneView::Motivation(s) => s.remaining(),
            SceneView::BuildCirc(s) => s.remaining(),
            _ => 0,
        }
    }

    /// The scene after one request to advance.
    pub open spec fn after_step(self) -> SceneView {
        match self {
            SceneView::Timeline(s) => SceneView::Timeline(s.after_step()),
            SceneView::Motivation(s) => SceneView::Motivation(s.after_step()),
            SceneView::BuildCirc(s) => SceneView::BuildCirc(s.after_step()),
            _ => self,
        }
    }

    /// The scene after `n` requests to advance.
    pub open spec fn after_steps(self, n: nat) -> SceneView
        decreases n,
    {
        if n == 0 {
            self
        } else {
            self.after_steps((n - 1) as nat).after_step()
        }
    }

    /// What the `n`-th of a run of requests to advance answers, counted
    /// from one.
    pub open spec fn answer(self, n: nat) -> NextStep
        recommends
            n >= 1,
    {
        if self.after_steps((n - 1) as nat).remaining() > 0 {
            NextStep::Running
        } else {
            NextStep::Finished
        }
    }

    /// The scene after a reset. Sequenced scenes go back to their start,
    /// a quotation pops up anew, and the others stay as they are.
    pub open spec fn rewound(self) -> SceneView {
        match self {
            SceneView::Timeline(s) => SceneView::Timeline(s.rewound()),
            SceneView::Quote(s) => SceneView::Quote(s.rewound()),
            SceneView::Motivation(_) => SceneView::Motivation(MotivationView::initial()),
            SceneView::BuildCirc(_) => SceneView::BuildCirc(BuildCircView::initial()),
            _ => self,
        }
    }

    /// Whether `after` can follow from this state by one tick of `dt`
    /// microseconds. Only the title scene leaves a choice.
    pub open spec fn ticked(self, after: SceneView, dt: u32) -> bool {
        match self {
            SceneView::Title(s) => after is Title && s.ticked(after->Title_0, dt),
            SceneView::Timeline(s) => after == SceneView::Timeline(s.tick(dt)),
            SceneView::Quote(s) => after == SceneView::Quote(s.tick(dt)),
            SceneView::Motivation(s) => after == SceneView::Motivation(s.tick(dt)),
            SceneView::BuildCirc(s) => after == SceneView::BuildCirc(s.tick(dt)),
            _ => after == self,
        }
    }

    /// Whether two states belong to the same authored scene: the same
    /// kind, and for a timeline the same name and events.
    pub open spec fn same_script(self, other: SceneView) -> bool {
        match (self, other) {
            (SceneView::Timeline(a), SceneView::Timeline(b)) => a.name == b.name && a.events
                == b.events,
            (SceneView::Motivation(_), SceneView::Motivation(_)) => true,
            (SceneView::BuildCirc(_), SceneView::BuildCirc(_)) => true,
            _ => false,
        }
    }
}

impl Scene {
    /// Advances the scene's animation by `dt` microseconds. The total
    /// running time `_t` is offered to every scene; none reads it so far.
    pub fn update(&mut self, dt: u32, _t: u64)
        requires
            old(self)@.wf(),
        ensures
            final(self)@.wf(),
            old(self)@.ticked(final(self)@, dt),
    {
        match self {
            Scene::Title(s) => s.update(dt),
            Scene::Timeline(s) => s.update(dt),
            Scene::Quote(s) => s.update(dt),
            Scene::Motivation(s) => s.update(dt),
            Scene::BuildCirc(s) => s.update(dt),
            _ => {},
        }
    }

    /// Puts the scene back to where its narrative starts.
    pub fn reset(&mut self)
        requires
            old(self)@.wf(),
        ensures
            final(self)@.wf(),
            final(self)@ == old(self)@.rewound(),
    {
        match self {
            Scene::Timeline(s) => s.reset(),
            Scene::Quote(s) => s.reset(),
            Scene::Motivation(s) => s.reset(),
            Scene::BuildCirc(s) => s.reset(),
            _ => {},
        }
    }

    /// Asks the scene to take its next step. A scene with a step left
    /// takes it and answers `Running`; any other stays as it is and
    /// answers `Finished`.
    pub fn next_step(&mut self) -> (r: NextStep)
        requires
            old(self)@.wf(),
        ensures
            final(self)@.wf(),
            final(self)@ == old(self)@.after_step(),
            r == NextStep::Running <==> old(self)@.remaining() > 0,
            r == NextStep::Finished ==> final(self)@ == old(self)@,
    {
        match self {
            Scene::Timeline(s) => s.next_step(),
            Scene::Motivation(s) => s.next_step(),
            Scene::BuildCirc(s) => s.next_step(),
            _ => NextStep::Finished,
        }
    }
}

/// A scene takes as many steps as it has left and then stays as it is:
/// of a run of requests to advance, the first `remaining()` are answered
/// with `Running` and every later one with `Finished`, and from the first
/// `Finished` on the state no longer changes.
pub proof fn lemma_steps_run_out(v: SceneView, n: nat)
    requires
        v.wf(),
    ensures
        v.after_steps(n).wf(),
        n <= v.remaining() ==> v.after_steps(n).remaining() == v.remaining() - n,
        n >= v.remaining() ==> v.after_steps(n) == v.after_steps(v.remaining()),
        n >= v.remaining() ==> v.after_steps(n).remaining() == 0,
        n >= 1 ==> (v.answer(n) == NextStep::Running <==> n <= v.remaining()),
    decreases n,
{
    if n > 0 {
        let m = (n - 1) as nat;
        lemma_steps_run_out(v, m);
        let w = v.after_steps(m);
        lemma_step_counts_down(w);
    }
}

/// One request to advance uses up one of the remaining steps; with none
/// left it changes nothing.
pub proof fn lemma_step_counts_down(v: SceneView)
    requires
        v.wf(),
    ensures
        v.after_step().wf(),
        v.remaining() > 0 ==> v.after_step().remaining() == v.remaining() - 1,
        v.remaining() == 0 ==> v.after_step() == v,
{
}

/// A reset forgets everything that happened before: whatever state two
/// copies of an authored scene are in, after a reset the same run of
/// steps leads both through the same states, with the same captions and
/// targets.
pub proof fn lemma_reset_replays(v: SceneView, w: SceneView, n: nat)
    requires
        v.same_script(w),
    ensures
        v.rewound() == w.rewound(),
        v.rewound().after_steps(n) == w.rewound().after_steps(n),
        v.rewound().same_script(v),
        v.after_step().same_script(v),
{
}

} // verus!
