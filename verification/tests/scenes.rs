use slidedeck::build_circ::{
    caption_at, hop_at, BuildCircScene, Hop, NetNode, CIRCUIT_STEPS, MARKER_SPEED, NODE_SPEED,
};
use slidedeck::funding::{FundingScene, Sponsor, SPONSOR_COUNT};
use slidedeck::motivation::{MotivationScene, Person, EASE_SPEED, STORY_STEPS};
use slidedeck::quote::{QuoteScene, POP_TIME};
use slidedeck::scene::{NextStep, Scene};
use slidedeck::slides::{DisadvantageScene, FunctionalityScene, GeneralScene};
use slidedeck::target_value::TargetValue;
use slidedeck::timeline::{TimelineEvent, TimelineScene, GLIDE_SPEED};
use slidedeck::title::TitleScene;
use slidedeck::utils::{vec2, Vec2, ONE};

fn at_rest<T: Copy>(value: T, speed: u32) -> TargetValue<T> {
    TargetValue { value, target: value, speed }
}

fn toward<T: Copy>(value: T, target: T, speed: u32) -> TargetValue<T> {
    TargetValue { value, target, speed }
}

fn three_events() -> Vec<TimelineEvent> {
    vec![
        TimelineEvent::new("2002", "alpha", None),
        TimelineEvent::new("2003", "release", Some(4)),
        TimelineEvent::new("2004", "license", None),
    ]
}

/// What a traversal of the circuit walkthrough shows after each step.
fn circuit_trace(scene: &mut BuildCircScene) -> Vec<(bool, u32, String, Vec2)> {
    let mut trace = Vec::new();
    for _ in 0..CIRCUIT_STEPS + 3 {
        let running = !scene.next_step().is_finished();
        trace.push((running, scene.step, scene.msg.clone(), scene.message.target));
    }
    trace
}

#[test]
fn next_step_answers() {
    assert!(NextStep::Finished.is_finished());
    assert!(!NextStep::Running.is_finished());
}

#[test]
fn people_and_nodes_start_hidden_and_at_rest() {
    let p = Person::new("Alice", vec2(1, 2));
    assert_eq!(p.name, "Alice");
    assert_eq!(p.pos, at_rest(vec2(1, 2), 5_200_000));
    assert_eq!(p.scale, at_rest(0, 5_200_000));
    let n = NetNode::new("OR1", vec2(-200, 0));
    assert_eq!(n.name, "OR1");
    assert_eq!(n.pos, at_rest(vec2(-200, 0), 5_200_000));
    assert_eq!(n.scale, at_rest(0, 5_200_000));
    assert_eq!(EASE_SPEED, 5_200_000);
    assert_eq!(NODE_SPEED, 5_200_000);
    assert_eq!(MARKER_SPEED, 2_200_000);
}

#[test]
fn people_and_nodes_ease_position_and_scale() {
    let mut p = Person::new("Bob", vec2(0, 0));
    p.pos.goto(vec2(400, -200));
    p.scale.goto(ONE);
    p.update(100_000);
    assert_eq!(p.pos.value, Vec2 { x: 208_000_000, y: -104_000_000 });
    assert_eq!(p.scale.value, 520_000);
    assert_eq!(p.name, "Bob");
    let mut n = NetNode::new("OR2", vec2(200, 0));
    n.scale.goto(ONE);
    n.update(100_000);
    assert_eq!(n.pos, at_rest(vec2(200, 0), NODE_SPEED));
    assert_eq!(n.scale, toward(520_000, ONE, NODE_SPEED));
}

#[test]
fn the_circuit_starts_with_everybody_hidden() {
    let s = BuildCircScene::new();
    assert_eq!(s.step, 0);
    assert_eq!(s.msg, "");
    assert_eq!(s.message, at_rest(vec2(-600, 0), MARKER_SPEED));
    assert_eq!(s.alice.name, "Alice");
    assert_eq!(s.bob.name, "Bob");
    assert_eq!(s.ors.0.name, "OR1");
    assert_eq!(s.ors.1.name, "OR2");
    assert_eq!(s.alice.pos, at_rest(vec2(-600, 0), NODE_SPEED));
    assert_eq!(s.bob.pos, at_rest(vec2(600, 0), NODE_SPEED));
    assert_eq!(s.ors.0.pos, at_rest(vec2(-200, 0), NODE_SPEED));
    assert_eq!(s.ors.1.pos, at_rest(vec2(200, 0), NODE_SPEED));
    for node in [&s.alice, &s.bob, &s.ors.0, &s.ors.1] {
        assert_eq!(node.scale, at_rest(0, NODE_SPEED));
    }
}

#[test]
fn the_circuit_script_sends_the_marker_from_node_to_node() {
    let hops: Vec<Option<Hop>> = (0..24).map(hop_at).collect();
    let a = Some(Hop::Alice);
    let r1 = Some(Hop::Or1);
    let r2 = Some(Hop::Or2);
    let b = Some(Hop::Bob);
    assert_eq!(
        hops,
        vec![
            None, None, r1, a, r1, r2, r1, a, None, r1, r2, b, r2, r1, a, r1, r2, b, r2, r1, a,
            None, None, None
        ]
    );
}

#[test]
fn the_circuit_script_has_a_caption_for_every_cell() {
    let captions: Vec<Option<&str>> = (0..24).map(caption_at).collect();
    assert_eq!(
        captions,
        vec![
            None,
            None,
            Some("create c1, <g^x1, OR1_k>"),
            Some("created c1, g^y1, H(key_1)"),
            Some("relay c1 { extend, OR2, <g^x2, OR2_k> }"),
            Some("create c2, <g^x2, OR2_k>"),
            Some("created c2, g^y2, H(key_2)"),
            Some("relay c2 { extended, g^y2, H(key_2) }"),
            Some("-- circuit established --"),
            Some("Relay c1 {{ begin \"https://bobs-leaks.org\" }}"),
            Some("Relay c2 { begin \"https://bobs-leaks.org\" }"),
            Some("-- handshake --"),
            Some("-- handshake --"),
            Some("relay c2 { connected }"),
            Some("relay c1 {{ connected }}"),
            Some("relay c1 {{ data, \"HTTP GET ...\" }}"),
            Some("relay c2 { data, \"HTTP GET ...\" }"),
            Some("\"HTTP GET\""),
            Some("(response)"),
            Some("relay c2 { (response) }"),
            Some("relay c1 {{ (response) }}"),
            Some("-- website --"),
            None,
            None,
        ]
    );
    assert_eq!(caption_at(u32::MAX), None);
    assert_eq!(hop_at(u32::MAX), None);
}

#[test]
fn the_circuit_takes_its_steps_in_order() {
    let mut s = BuildCircScene::new();
    assert!(!s.next_step().is_finished());
    assert_eq!(s.step, 1);
    assert_eq!(s.alice.scale, toward(0, ONE, NODE_SPEED));
    assert_eq!(s.bob.scale, toward(0, ONE, NODE_SPEED));
    assert_eq!(s.ors.0.scale, at_rest(0, NODE_SPEED));
    assert_eq!(s.msg, "");
    assert_eq!(s.message, at_rest(vec2(-600, 0), MARKER_SPEED));

    assert!(!s.next_step().is_finished());
    assert_eq!(s.ors.0.scale, toward(0, ONE, NODE_SPEED));
    assert_eq!(s.ors.1.scale, toward(0, ONE, NODE_SPEED));
    assert_eq!(s.msg, "");

    assert!(!s.next_step().is_finished());
    assert_eq!(s.step, 3);
    assert_eq!(s.msg, "create c1, <g^x1, OR1_k>");
    assert_eq!(s.message, toward(vec2(-600, 0), vec2(-200, 0), MARKER_SPEED));

    let targets = [
        (vec2(-600, 0), "created c1, g^y1, H(key_1)"),
        (vec2(-200, 0), "relay c1 { extend, OR2, <g^x2, OR2_k> }"),
        (vec2(200, 0), "create c2, <g^x2, OR2_k>"),
        (vec2(-200, 0), "created c2, g^y2, H(key_2)"),
        (vec2(-600, 0), "relay c2 { extended, g^y2, H(key_2) }"),
        (vec2(-600, 0), "-- circuit established --"),
        (vec2(-200, 0), "Relay c1 {{ begin \"https://bobs-leaks.org\" }}"),
        (vec2(200, 0), "Relay c2 { begin \"https://bobs-leaks.org\" }"),
        (vec2(600, 0), "-- handshake --"),
        (vec2(200, 0), "-- handshake --"),
        (vec2(-200, 0), "relay c2 { connected }"),
        (vec2(-600, 0), "relay c1 {{ connected }}"),
        (vec2(-200, 0), "relay c1 {{ data, \"HTTP GET ...\" }}"),
        (vec2(200, 0), "relay c2 { data, \"HTTP GET ...\" }"),
        (vec2(600, 0), "\"HTTP GET\""),
        (vec2(200, 0), "(response)"),
        (vec2(-200, 0), "relay c2 { (response) }"),
        (vec2(-600, 0), "relay c1 {{ (response) }}"),
        (vec2(-600, 0), "-- website --"),
    ];
    for (k, (target, caption)) in targets.iter().enumerate() {
        assert!(!s.next_step().is_finished());
        assert_eq!(s.step, k as u32 + 4);
        assert_eq!(s.msg, *caption);
        assert_eq!(s.message.target, *target);
        assert_eq!(s.message.value, vec2(-600, 0));
    }
    assert_eq!(s.step, CIRCUIT_STEPS);
    assert_eq!(CIRCUIT_STEPS, 22);
}

#[test]
fn the_circuit_stays_as_it_is_once_it_has_finished() {
    let mut s = BuildCircScene::new();
    for _ in 0..CIRCUIT_STEPS {
        assert!(!s.next_step().is_finished());
    }
    for _ in 0..5 {
        assert!(s.next_step().is_finished());
        assert_eq!(s.step, CIRCUIT_STEPS);
        assert_eq!(s.msg, "-- website --");
        assert_eq!(s.message.target, vec2(-600, 0));
        assert_eq!(s.alice.scale.target, ONE);
    }
}

#[test]
fn the_marker_heads_for_where_the_node_is_now() {
    let mut s = BuildCircScene::new();
    s.next_step();
    s.next_step();
    s.ors.0.pos.goto(vec2(0, 100));
    s.update(1_000_000 / 26 * 5);
    let here = s.ors.0.pos.value;
    assert_ne!(here, vec2(-200, 0));
    s.next_step();
    assert_eq!(s.message.target, here);
}

#[test]
fn the_circuit_eases_nodes_and_marker() {
    let mut s = BuildCircScene::new();
    s.next_step();
    s.next_step();
    s.next_step();
    s.update(100_000);
    assert_eq!(s.alice.scale, toward(520_000, ONE, NODE_SPEED));
    assert_eq!(s.bob.scale, toward(520_000, ONE, NODE_SPEED));
    assert_eq!(s.ors.0.scale, toward(520_000, ONE, NODE_SPEED));
    assert_eq!(s.ors.1.scale, toward(520_000, ONE, NODE_SPEED));
    // 0.22 of the way from -600 to -200
    assert_eq!(s.message, toward(vec2(-512, 0), vec2(-200, 0), MARKER_SPEED));
    assert_eq!(s.alice.pos, at_rest(vec2(-600, 0), NODE_SPEED));
    assert_eq!(s.step, 3);
    assert_eq!(s.msg, "create c1, <g^x1, OR1_k>");
}

#[test]
fn a_reset_circuit_replays_the_same_traversal() {
    let mut s = BuildCircScene::new();
    let first = circuit_trace(&mut s);
    s.update(16_667);
    s.reset();
    assert_eq!(s.step, 0);
    assert_eq!(s.msg, "");
    assert_eq!(s.message, at_rest(vec2(-600, 0), MARKER_SPEED));
    assert_eq!(s.alice.scale, at_rest(0, NODE_SPEED));
    let second = circuit_trace(&mut s);
    assert_eq!(first, second);
    assert_eq!(first.iter().filter(|entry| entry.0).count(), 22);

    let mut halfway = BuildCircScene::new();
    for _ in 0..7 {
        halfway.next_step();
        halfway.update(200_000);
    }
    halfway.reset();
    assert_eq!(circuit_trace(&mut halfway), first);
}

#[test]
fn the_story_starts_with_nothing_shown() {
    let s = MotivationScene::new();
    assert_eq!(s.step, 0);
    for (person, name) in [(&s.alice, "Alice"), (&s.bob, "Bob"), (&s.carol, "Carol")] {
        assert_eq!(person.name, name);
        assert_eq!(person.pos, at_rest(vec2(0, 0), EASE_SPEED));
        assert_eq!(person.scale, at_rest(0, EASE_SPEED));
    }
    let zero = at_rest(0, EASE_SPEED);
    assert_eq!(s.connections, (zero, zero));
    assert_eq!(s.https, zero);
    assert_eq!(s.connection_id, zero);
    assert_eq!(s.alice_dead, zero);
    assert_eq!(s.tor_visible, zero);
}

#[test]
fn the_story_is_told_in_eleven_steps() {
    let mut s = MotivationScene::new();
    let running = |s: &mut MotivationScene| !s.next_step().is_finished();

    assert!(running(&mut s));
    assert_eq!(s.step, 1);
    assert_eq!(s.alice.scale.target, ONE);
    assert_eq!(s.alice.scale.value, 0);
    assert_eq!(s.bob.scale.target, 0);

    assert!(running(&mut s));
    assert_eq!(s.alice.pos.target, vec2(-400, -200));
    assert_eq!(s.alice.pos.value, vec2(0, 0));
    assert_eq!(s.bob.scale.target, ONE);
    assert_eq!(s.bob.pos.target, vec2(400, -200));
    assert_eq!(s.carol.scale.target, 0);

    assert!(running(&mut s));
    assert_eq!(s.carol.pos.target, vec2(0, 300));
    assert_eq!(s.carol.scale.target, ONE);
    assert_eq!(s.connections.0.target, 0);

    assert!(running(&mut s));
    assert_eq!(s.connections.0.target, ONE);
    assert_eq!(s.connections.1.target, 0);

    assert!(running(&mut s));
    assert_eq!(s.connections.1.target, 700_000);
    assert_eq!(s.connections.0.target, ONE);
    assert_eq!(s.https.target, 0);

    assert!(running(&mut s));
    assert_eq!(s.https.target, ONE);
    assert_eq!(s.connections.1.target, 0);
    assert_eq!(s.connections.0.target, 800_000);
    assert_eq!(s.connection_id.target, 0);

    assert!(running(&mut s));
    assert_eq!(s.connection_id.target, ONE);
    assert_eq!(s.step, 7);

    let before = (s.connections, s.https, s.connection_id, s.alice_dead, s.tor_visible);
    assert!(running(&mut s));
    assert_eq!(s.step, 8);
    assert_eq!(before, (s.connections, s.https, s.connection_id, s.alice_dead, s.tor_visible));
    assert_eq!(s.alice.pos.target, vec2(-400, -200));

    assert!(running(&mut s));
    assert_eq!(s.alice_dead.target, ONE);

    assert!(running(&mut s));
    assert_eq!(s.alice_dead.target, 0);
    assert_eq!(s.tor_visible.target, 0);

    assert!(running(&mut s));
    assert_eq!(s.step, 11);
    assert_eq!(s.alice.pos.target, vec2(-480, -200));
    assert_eq!(s.bob.pos.target, vec2(480, -200));
    assert_eq!(s.tor_visible.target, ONE);
    assert_eq!(s.connections.0.target, 0);
    assert_eq!(s.connections.1.target, 0);
    assert_eq!(s.https.target, ONE);
    assert_eq!(s.carol.pos.target, vec2(0, 300));

    assert_eq!(STORY_STEPS, 11);
    for _ in 0..3 {
        assert!(!running(&mut s));
        assert_eq!(s.step, 11);
        assert_eq!(s.tor_visible.target, ONE);
    }
    assert_eq!(s.alice.pos.value, vec2(0, 0));
    assert_eq!(s.tor_visible.value, 0);
}

#[test]
fn the_story_eases_everything_and_starts_over_on_reset() {
    let mut s = MotivationScene::new();
    for _ in 0..6 {
        s.next_step();
    }
    s.update(100_000);
    assert_eq!(s.alice.scale.value, 520_000);
    assert_eq!(s.alice.pos.value, Vec2 { x: -208_000_000, y: -104_000_000 });
    assert_eq!(s.bob.pos.value, Vec2 { x: 208_000_000, y: -104_000_000 });
    assert_eq!(s.carol.pos.value, Vec2 { x: 0, y: 156_000_000 });
    assert_eq!(s.connections.0.value, 416_000);
    assert_eq!(s.connections.1.value, 0);
    assert_eq!(s.https.value, 520_000);
    assert_eq!(s.connection_id.value, 0);
    assert_eq!(s.step, 6);
    s.reset();
    assert_eq!(s.step, 0);
    assert_eq!(s.alice.pos, at_rest(vec2(0, 0), EASE_SPEED));
    assert_eq!(s.alice.scale, at_rest(0, EASE_SPEED));
    assert_eq!(s.https, at_rest(0, EASE_SPEED));
    assert_eq!(s.connections.0, at_rest(0, EASE_SPEED));
    assert!(!s.next_step().is_finished());
    assert_eq!(s.alice.scale.target, ONE);
    assert_eq!(s.step, 1);
}

#[test]
fn a_timeline_starts_before_its_first_event() {
    let t = TimelineScene::new(three_events(), "history");
    assert_eq!(t.name, "history");
    assert_eq!(t.events.len(), 3);
    assert_eq!(t.events[1].year, "2003");
    assert_eq!(t.events[1].label, "release");
    assert_eq!(t.events[1].image, Some(4));
    assert_eq!(t.events[0].image, None);
    assert_eq!(t.current_event, -ONE);
    assert_eq!(t.target, -1);
}

#[test]
fn a_timeline_moves_its_focus_event_by_event() {
    let mut t = TimelineScene::new(three_events(), "history");
    for expected in 0..=3 {
        assert!(!t.next_step().is_finished());
        assert_eq!(t.target, expected);
        assert_eq!(t.current_event, -ONE);
    }
    for _ in 0..3 {
        assert!(t.next_step().is_finished());
        assert_eq!(t.target, 3);
    }
    assert_eq!(t.events.len(), 3);
    assert_eq!(t.name, "history");
}

#[test]
fn an_empty_timeline_takes_one_step() {
    let mut t = TimelineScene::new(Vec::new(), "empty");
    assert!(!t.next_step().is_finished());
    assert_eq!(t.target, 0);
    assert!(t.next_step().is_finished());
    assert_eq!(t.target, 0);
}

#[test]
fn a_timeline_glides_toward_its_focus() {
    let mut t = TimelineScene::new(three_events(), "history");
    t.update(1_000_000);
    assert_eq!(t.current_event, -ONE);
    t.next_step();
    t.update(1_000_000);
    assert_eq!(t.current_event, -250_000);
    t.next_step();
    t.next_step();
    t.update(500_000);
    // -0.25 + (2 + 0.25) * 0.375
    assert_eq!(t.current_event, 593_750);
    assert_eq!(t.target, 2);
    assert_eq!(GLIDE_SPEED, 750_000);
}

#[test]
fn a_timeline_reset_snaps_back() {
    let mut t = TimelineScene::new(three_events(), "history");
    t.next_step();
    t.next_step();
    t.update(300_000);
    t.reset();
    assert_eq!(t.current_event, -ONE);
    assert_eq!(t.target, -1);
    assert_eq!(t.events.len(), 3);
    let mut answers = Vec::new();
    for _ in 0..6 {
        answers.push(t.next_step().is_finished());
    }
    assert_eq!(answers, vec![false, false, false, false, true, true]);
}

#[test]
fn a_quote_pops_for_a_quarter_of_a_second() {
    let mut q = QuoteScene::new("text", "source", "name");
    assert_eq!(q.quote_text, "text");
    assert_eq!(q.source, "source");
    assert_eq!(q.name, "name");
    assert_eq!(q.t, 0);
    q.update(100_000);
    assert_eq!(q.t, 100_000);
    q.update(149_999);
    assert_eq!(q.t, 249_999);
    q.update(1);
    assert_eq!(q.t, POP_TIME);
    q.update(u32::MAX);
    assert_eq!(q.t, 250_000);
    q.reset();
    assert_eq!(q.t, 0);
    assert_eq!(q.quote_text, "text");
    q.update(u32::MAX);
    assert_eq!(q.t, 250_000);
}

#[test]
fn the_sponsors_are_listed_with_their_logos() {
    let f = FundingScene::new();
    let names: Vec<&str> = f.sponsors.iter().map(|s| s.name.as_str()).collect();
    assert_eq!(
        names,
        vec![
            "Electronic Frontier Foundation",
            "US Bureau of Democracy, Human Rights and Labor",
            "International Broadcasting Bureau",
            "Internews",
            "Human Rights Watch",
            "University of Cambridge",
            "Google",
            "NLnet",
        ]
    );
    for (i, s) in f.sponsors.iter().enumerate() {
        assert_eq!(s.image, Some(i));
    }
    assert_eq!(f.sponsors.len(), SPONSOR_COUNT);
    let s = Sponsor::new("someone", None);
    assert_eq!(s.name, "someone");
    assert_eq!(s.image, None);
}

#[test]
fn scenes_without_steps_finish_at_once() {
    let mut scenes = vec![
        Scene::Title(TitleScene::new()),
        Scene::General(GeneralScene::new()),
        Scene::Funding(FundingScene::new()),
        Scene::Quote(QuoteScene::new("q", "s", "n")),
        Scene::Functionality(FunctionalityScene::new()),
        Scene::Disadvantage(DisadvantageScene::new()),
    ];
    for scene in scenes.iter_mut() {
        for _ in 0..3 {
            assert!(scene.next_step().is_finished());
        }
        scene.reset();
        scene.update(16_667, 16_667);
        assert!(scene.next_step().is_finished());
    }
}

#[test]
fn a_scene_hands_each_call_to_its_own_kind() {
    let mut timeline = Scene::Timeline(TimelineScene::new(three_events(), "history"));
    assert!(!timeline.next_step().is_finished());
    timeline.update(1_000_000, 1_000_000);
    match &timeline {
        Scene::Timeline(t) => {
            assert_eq!(t.target, 0);
            assert_eq!(t.current_event, -250_000);
        }
        _ => panic!("the scene changed its kind"),
    }
    timeline.reset();
    match &timeline {
        Scene::Timeline(t) => assert_eq!((t.target, t.current_event), (-1, -ONE)),
        _ => panic!("the scene changed its kind"),
    }

    let mut quote = Scene::Quote(QuoteScene::new("q", "s", "n"));
    quote.update(1_000, 0);
    match &quote {
        Scene::Quote(q) => assert_eq!(q.t, 1_000),
        _ => panic!("the scene changed its kind"),
    }
    quote.reset();
    match &quote {
        Scene::Quote(q) => assert_eq!(q.t, 0),
        _ => panic!("the scene changed its kind"),
    }

    let mut story = Scene::Motivation(MotivationScene::new());
    let mut circuit = Scene::BuildCirc(BuildCircScene::new());
    let mut story_steps = 0;
    while !story.next_step().is_finished() {
        story_steps += 1;
    }
    let mut circuit_steps = 0;
    while !circuit.next_step().is_finished() {
        circuit_steps += 1;
    }
    assert_eq!((story_steps, circuit_steps), (11, 22));
    story.update(100_000, 0);
    circuit.update(100_000, 0);
    match (&story, &circuit) {
        (Scene::Motivation(m), Scene::BuildCirc(c)) => {
            assert_eq!(m.tor_visible.value, 520_000);
            assert_eq!(c.alice.scale.value, 520_000);
        }
        _ => panic!("the scene changed its kind"),
    }
    story.reset();
    circuit.reset();
    match (&story, &circuit) {
        (Scene::Motivation(m), Scene::BuildCirc(c)) => {
            assert_eq!((m.step, m.tor_visible.value), (0, 0));
            assert_eq!((c.step, c.alice.scale.value), (0, 0));
            assert_eq!(c.msg, "");
        }
        _ => panic!("the scene changed its kind"),
    }

    let mut title = Scene::Title(TitleScene::new());
    title.update(2_000_000, 0);
    match &title {
        Scene::Title(t) => assert!(t.walkers.iter().all(|w| w.wt == 0)),
        _ => panic!("the scene changed its kind"),
    }
}
