//! The presentation itself: which scenes it shows, in which order, and
//! the texts they carry.

use vstd::prelude::*;
use crate::build_circ::{BuildCircScene, BuildCircView};
use crate::funding::{sponsor_list, FundingScene};
use crate::motivation::{MotivationScene, MotivationView};
use crate::quote::{QuoteScene, QuoteView};
use crate::scene::{Scene, SceneView};
use crate::slides::{DisadvantageScene, FunctionalityScene, GeneralScene};
use crate::timeline::{TimelineEvent, TimelineEventView, TimelineScene, TimelineView};
use crate::title::TitleScene;

verus! {

/// How many scenes the presentation has.
pub const SCENE_COUNT: usize = 11;

/// An event without a picture.
pub open spec fn dated(year: Seq<char>, label: Seq<char>) -> TimelineEventView {
    TimelineEventView { year, label, image: None }
}

/// The events of the history timeline, oldest first.
pub open spec fn history_view() -> Seq<TimelineEventView> {
    seq![
        dated("mid 1990s"@, "US Naval Research Employees begin developement"@),
        dated("2002"@, "alpha version is launched"@),
        dated("2003"@, "first public release"@),
        dated("2004"@, "code released under free license"@),
        dated("2006"@, "'The Tor Project' non profit is founded"@),
        dated("2007"@, "The Organisation begins deploying Bridges over Goverment firewalls"@),
        dated("2008"@, "Development on the Tor Browser begins"@),
        dated("2010"@, "Tor proves itself invaluable during Arab Spring"@),
        dated(
            "2013"@,
            "Tor helps Edward Snowden publish his documents on american surveillance"@,
        ),
    ]
}

/// Builds the events of the history timeline.
pub fn history() -> (events: Vec<TimelineEvent>)
    ensures
        events@.map_values(|e: TimelineEvent| e@) == history_view(),
{
    let mut events: Vec<TimelineEvent> = Vec::new();
    events.push(
        TimelineEvent::new("mid 1990s", "US Naval Research Employees begin developement", None),
    );
    events.push(TimelineEvent::new("2002", "alpha version is launched", None));
    events.push(TimelineEvent::new("2003", "first public release", None));
    events.push(TimelineEvent::new("2004", "code released under free license", None));
    events.push(TimelineEvent::new("2006", "'The Tor Project' non profit is founded", None));
    events.push(
        TimelineEvent::new(
            "2007",
            "The Organisation begins deploying Bridges over Goverment firewalls",
            None,
        ),
    );
    events.push(TimelineEvent::new("2008", "Development on the Tor Browser begins", None));
    events.push(
        TimelineEvent::new("2010", "Tor proves itself invaluable during Arab Spring", None),
    );
    events.push(
        TimelineEvent::new(
            "2013",
            "Tor helps Edward Snowden publish his documents on american surveillance",
            None,
        ),
    );
    assert(events@.map_values(|e: TimelineEvent| e@) =~= history_view());
    events
}

/// The question that opens the motivation.
pub open spec fn opening_quote() -> QuoteView {
    QuoteView::fresh("What is Tor trying to achieve?"@, ""@, "TOR - motivation"@)
}

/// The aim of the browser, in its makers' words.
pub open spec fn browser_quote() -> QuoteView {
    QuoteView::fresh(
        "Tor Browser aims to make all users look the same, making if difficult for you to be fingerprinted on your browser and device information"@,
        "- The Tor Browser GitLab"@,
        "TOR - the browser"@,
    )
}

/// The closing word on usability.
pub open spec fn closing_quote() -> QuoteView {
    QuoteView::fresh(
        "usability is not only a convinience: it is a security requirement"@,
        "- the TOR whitepaper"@,
        "TOR - conclusion"@,
    )
}

/// Whether `scenes` is the presentation as it starts: the eleven scenes
/// in order, each at its beginning.
pub open spec fn is_catalog(scenes: Seq<SceneView>) -> bool {
    &&& scenes.len() == SCENE_COUNT
    &&& scenes[0] is Title
    &&& scenes[0]->Title_0.fresh()
    &&& scenes[1] == SceneView::General
    &&& scenes[2] == SceneView::Timeline(TimelineView::fresh("TOR - history"@, history_view()))
    &&& scenes[3] == SceneView::Funding(sponsor_list())
    &&& scenes[4] == SceneView::Quote(opening_quote())
    &&& scenes[5] == SceneView::Motivation(MotivationView::initial())
    &&& scenes[6] == SceneView::Functionality
    &&& scenes[7] == SceneView::BuildCirc(BuildCircView::initial())
    &&& scenes[8] == SceneView::Quote(browser_quote())
    &&& scenes[9] == SceneView::Disadvantage
    &&& scenes[10] == SceneView::Quote(closing_quote())
}

/// Builds the scenes of the presentation.
pub fn catalog() -> (scenes: Vec<Scene>)
    ensures
        is_catalog(scenes@.map_values(|s: Scene| s@)),
        forall|i: int| 0 <= i < scenes@.len() ==> (#[trigger] scenes@[i])@.wf(),
{
    let mut scenes: Vec<Scene> = Vec::new();
    scenes.push(Scene::Title(TitleScene::new()));
    scenes.push(Scene::General(GeneralScene::new()));
    let events = history();
    proof {
        assert(events@.len() == events@.map_values(|e: TimelineEvent| e@).len());
    }
    scenes.push(Scene::Timeline(TimelineScene::new(events, "TOR - history")));
    scenes.push(Scene::Funding(FundingScene::new()));
    scenes.push(
        Scene::Quote(QuoteScene::new("What is Tor trying to achieve?", "", "TOR - motivation")),
    );
    scenes.push(Scene::Motivation(MotivationScene::new()));
    scenes.push(Scene::Functionality(FunctionalityScene::new()));
    scenes.push(Scene::BuildCirc(BuildCircScene::new()));
    scenes.push(
        Scene::Quote(
            QuoteScene::new(
                "Tor Browser aims to make all users look the same, making if difficult for you to be fingerprinted on your browser and device information",
                "- The Tor Browser GitLab",
                "TOR - the browser",
            ),
        ),
    );
    scenes.push(Scene::Disadvantage(DisadvantageScene::new()));
    scenes.push(
        Scene::Quote(
            QuoteScene::new(
                "usability is not only a convinience: it is a security requirement",
                "- the TOR whitepaper",
                "TOR - conclusion",
            ),
        ),
    );
    scenes
}

} // verus!
