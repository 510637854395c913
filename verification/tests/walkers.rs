use rand::rngs::StdRng;
use rand::SeedableRng;
use slidedeck::title::{
    neighbours, pick_other, GraphNode, TitleScene, Walker, CELL, HALF, MAX_DIST, MAX_PACE,
    MIN_PACE, NODE_COUNT, WALKER_COUNT,
};
use slidedeck::utils::{Vec2, ONE};

fn node(x: i64, y: i64) -> GraphNode {
    GraphNode { pos: Vec2 { x, y }, links: Vec::new() }
}

fn close(a: Vec2, b: Vec2) -> bool {
    let dx = (a.x - b.x) as i128;
    let dy = (a.y - b.y) as i128;
    dx * dx + dy * dy < (MAX_DIST as i128) * (MAX_DIST as i128)
}

#[test]
fn a_walker_advances_by_speed_times_dt() {
    let mut w = Walker::new(3, 5, 800_000);
    assert_eq!(w, Walker { from: 3, to: 5, wt: 0, speed: 800_000 });
    let arrived = w.advance(500_000);
    assert!(!arrived);
    assert_eq!(w, Walker { from: 3, to: 5, wt: 400_000, speed: 800_000 });
    assert!(!w.advance(500_000));
    assert_eq!(w.wt, 800_000);
}

#[test]
fn a_walker_that_would_pass_its_target_sets_out_again() {
    let mut w = Walker { from: 3, to: 5, wt: 800_000, speed: 800_000 };
    let arrived = w.advance(500_000);
    assert!(arrived);
    assert_eq!(w, Walker { from: 3, to: 5, wt: 800_000, speed: 800_000 });
    w.reroute(9);
    assert_eq!(w, Walker { from: 5, to: 9, wt: 0, speed: 800_000 });
}

#[test]
fn a_walker_that_lands_exactly_on_its_target_stays_on_the_link() {
    let mut w = Walker::new(0, 1, 500_000);
    assert!(!w.advance(1_000_000));
    assert!(!w.advance(1_000_000));
    assert_eq!(w.wt, ONE as u32);
    assert!(w.advance(2));
    assert!(!w.advance(1));
    assert_eq!(w.wt, ONE as u32);
}

#[test]
fn a_walker_survives_the_longest_tick() {
    let mut w = Walker { from: 0, to: 1, wt: u32::MAX, speed: u32::MAX };
    assert!(w.advance(u32::MAX));
    let mut still = Walker::new(0, 1, 0);
    assert!(!still.advance(u32::MAX));
    assert_eq!(still.wt, 0);
}

#[test]
fn neighbours_are_the_other_nodes_within_reach() {
    let points = vec![
        node(0, 0),
        node(100_000, 0),
        node(500_000, 500_000),
        node(0, 114_999),
        node(0, -115_000),
        node(0, 0),
    ];
    assert_eq!(neighbours(&points, 0), vec![1, 3, 5]);
    assert_eq!(neighbours(&points, 1), vec![0, 5]);
    assert_eq!(neighbours(&points, 2), Vec::<usize>::new());
    assert_eq!(neighbours(&points, 4), Vec::<usize>::new());
    assert_eq!(neighbours(&points, 5), vec![0, 1, 3]);
}

#[test]
fn pick_other_avoids_the_given_index() {
    let mut rng = StdRng::seed_from_u64(7);
    let mut seen = [false; 5];
    for round in 0..500 {
        let avoid = round % 5;
        let r = pick_other(&mut rng, 5, avoid);
        assert!(r < 5);
        assert_ne!(r, avoid);
        seen[r] = true;
    }
    assert_eq!(seen, [true; 5]);
    for _ in 0..50 {
        assert_eq!(pick_other(&mut rng, 2, 0), 1);
        assert_eq!(pick_other(&mut rng, 2, 1), 0);
        assert!(pick_other(&mut rng, 3, 17) < 3);
    }
}

#[test]
fn the_title_scene_is_a_jittered_grid() {
    let scene = TitleScene::new();
    assert_eq!(scene.points.len(), NODE_COUNT);
    for (k, p) in scene.points.iter().enumerate() {
        let left = (k / 10) as i64 * CELL - HALF;
        let bottom = (k % 10) as i64 * CELL - HALF;
        assert!(left <= p.pos.x && p.pos.x < left + CELL);
        assert!(bottom <= p.pos.y && p.pos.y < bottom + CELL);
    }
}

#[test]
fn the_title_scene_links_exactly_the_near_nodes() {
    let scene = TitleScene::new();
    let mut links = 0;
    for (a, p) in scene.points.iter().enumerate() {
        let expected: Vec<usize> = (0..NODE_COUNT)
            .filter(|&b| b != a && close(p.pos, scene.points[b].pos))
            .collect();
        assert_eq!(p.links, expected);
        assert_eq!(p.links, neighbours(&scene.points, a));
        for &b in p.links.iter() {
            assert!(scene.points[b].links.contains(&a));
        }
        links += p.links.len();
    }
    assert!(links > 0);
}

#[test]
fn the_title_scene_starts_its_walkers_on_links_between_two_nodes() {
    let scene = TitleScene::new();
    assert_eq!(scene.walkers.len(), WALKER_COUNT);
    for w in scene.walkers.iter() {
        assert!(w.from < NODE_COUNT);
        assert!(w.to < NODE_COUNT);
        assert_ne!(w.from, w.to);
        assert_eq!(w.wt, 0);
        assert!(MIN_PACE <= w.speed && w.speed <= MAX_PACE);
    }
    let first = scene.walkers[0].speed;
    assert!(scene.walkers.iter().any(|w| w.speed != first));
}

#[test]
fn the_title_scene_is_built_the_same_way_every_time() {
    let a = TitleScene::new();
    let b = TitleScene::new();
    assert_eq!(a.walkers, b.walkers);
    for k in 0..NODE_COUNT {
        assert_eq!(a.points[k].pos, b.points[k].pos);
        assert_eq!(a.points[k].links, b.points[k].links);
    }
}

#[test]
fn a_tick_moves_every_walker_by_the_rule() {
    let mut scene = TitleScene::new();
    let mut arrivals = 0;
    let mut moved_on = 0;
    for _ in 0..40 {
        let before = scene.walkers.clone();
        scene.update(250_000);
        assert_eq!(scene.walkers.len(), before.len());
        assert_eq!(scene.points.len(), NODE_COUNT);
        for (old, new) in before.iter().zip(scene.walkers.iter()) {
            let progress = old.wt as u64 + 250_000 * old.speed as u64 / 1_000_000;
            if progress > 1_000_000 {
                arrivals += 1;
                assert_eq!(new.from, old.to);
                assert_eq!(new.wt, 0);
                assert_eq!(new.speed, old.speed);
                let links = &scene.points[old.to].links;
                if links.is_empty() {
                    assert_eq!(new.to, old.to);
                } else {
                    moved_on += 1;
                    assert!(links.contains(&new.to));
                    assert_ne!(new.to, new.from);
                }
            } else {
                assert_eq!(
                    *new,
                    Walker { from: old.from, to: old.to, wt: progress as u32, speed: old.speed }
                );
            }
        }
    }
    assert!(arrivals > 0);
    assert!(moved_on > 0);
}

#[test]
fn a_tick_of_no_time_changes_no_walker() {
    let mut scene = TitleScene::new();
    let before = scene.walkers.clone();
    scene.update(0);
    assert_eq!(scene.walkers, before);
}
