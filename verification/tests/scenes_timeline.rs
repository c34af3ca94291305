use uno_no_mercy_video::canvas::Canvas;
use uno_no_mercy_video::cards::{Card, CardColor, CardType};
use uno_no_mercy_video::character::{Character, Expression};
use uno_no_mercy_video::color::Color;
use uno_no_mercy_video::fixed::Fixed;
use uno_no_mercy_video::scenes::{
    compose, count_text, layer_requests, plain, Layer, Placement, Progress, SceneManager,
    SceneTiming, Source, VideoConfig,
};
use uno_no_mercy_video::text::{GlyphRun, TextStyle};

const WHITE: Color = Color { r: 255, g: 255, b: 255, a: 255 };

fn fx(raw: i64) -> Fixed {
    Fixed::millionths(raw)
}

fn secs(s: i64) -> Fixed {
    Fixed::from_int(s)
}

fn block(width: u32, height: u32) -> GlyphRun {
    GlyphRun {
        mask: Canvas::filled(width, height, WHITE),
        left: 0,
        top: 0,
        advance: Fixed::from_int(width as i64),
        line_height: Fixed::from_int(height as i64),
    }
}

fn texts_at(m: &SceneManager, time: Fixed) -> Vec<String> {
    m.text_requests(time, 0).into_iter().map(|r| r.text).collect()
}

#[test]
fn standard_video() {
    let config = VideoConfig::standard();
    assert_eq!((config.width, config.height, config.frame_rate), (1080, 1920, 30));
    assert_eq!(config.total_duration, secs(75));
    assert_eq!(config.total_frames(), 2250);
    assert_eq!(config.frame_time(0), Fixed::zero());
    assert_eq!(config.frame_time(30), Fixed::one());
    assert_eq!(config.frame_time(45).raw, 1_500_000);
    assert_eq!(config.frame_time(1).raw, 33_333);
}

#[test]
fn progress_is_clamped_to_the_window() {
    let w = SceneTiming::new(secs(3), secs(15));
    assert_eq!(w.progress(secs(-100)), Progress::zero());
    assert_eq!(w.progress(secs(0)), Progress::zero());
    assert_eq!(w.progress(secs(3)), Progress::zero());
    assert_eq!(w.progress(secs(9)), Progress { passed: 6_000_000, length: 12_000_000 });
    assert_eq!(w.progress(secs(9)).fixed().raw, 500_000);
    assert_eq!(w.progress(secs(6)).fixed().raw, 250_000);
    assert_eq!(w.progress(fx(14_999_999)).fixed().raw, 999_999);
    assert_eq!(w.progress(secs(15)), Progress::one());
    assert_eq!(w.progress(secs(1000)), Progress::one());
    assert_eq!(Progress::zero().fixed(), Fixed::zero());
    assert_eq!(Progress::one().fixed(), Fixed::one());
}

#[test]
fn progress_grows_strictly_inside_a_window() {
    let w = SceneTiming::new(secs(0), secs(15));
    let a = w.progress(fx(0));
    let b = w.progress(fx(1));
    let c = w.progress(fx(2));
    assert!(a.below(b) && b.below(c) && a.below(c));
    assert!(!b.below(a) && !b.below(b) && b.at_most(b));
    assert_eq!(b.fixed(), c.fixed());
    let end = w.progress(secs(15));
    let last = w.progress(fx(14_999_999));
    assert!(last.below(end) && c.below(last));
    let mut t: i64 = 0;
    let mut before = w.progress(fx(0));
    while t < 15_000_000 {
        t += 1_234_567;
        let now = w.progress(fx(t));
        assert!(before.below(now) || now == Progress::one() && before == Progress::one());
        assert!(before.fixed().raw <= now.fixed().raw);
        before = now;
    }
}

#[test]
fn progress_of_the_widest_window() {
    let w = SceneTiming::new(fx(i64::MIN), fx(i64::MAX));
    let a = w.progress(fx(i64::MIN));
    let b = w.progress(fx(i64::MIN + 1));
    let c = w.progress(fx(i64::MAX - 1));
    let d = w.progress(fx(i64::MAX));
    assert_eq!(a, Progress::zero());
    assert_eq!(b, Progress { passed: 1, length: u64::MAX });
    assert_eq!(c, Progress { passed: u64::MAX - 1, length: u64::MAX });
    assert_eq!(d, Progress::one());
    assert!(a.below(b) && b.below(c) && c.below(d));
    assert_eq!(c.fixed().raw, 999_999);
    assert_eq!(w.progress(fx(0)).fixed().raw, 500_000);
    let odd = Progress { passed: 9, length: 0 };
    assert_eq!(odd.fixed(), Fixed::zero());
    assert_eq!(Progress { passed: 9, length: 2 }.fixed(), Fixed::one());
}

#[test]
fn progress_never_decreases() {
    let w = SceneTiming::new(secs(30), secs(45));
    let mut t: i64 = 29_000_000;
    let mut last = w.progress(fx(t));
    while t < 46_000_000 {
        t += 33_333;
        let p = w.progress(fx(t));
        assert!(last.at_most(p));
        assert!(last.fixed().raw <= p.fixed().raw && p.fixed().raw <= 1_000_000);
        if 30_000_000 < t && t <= 45_000_000 {
            assert!(last.below(p), "at {}", t);
        }
        last = p;
    }
}

#[test]
fn windows_hold_their_start_and_not_their_end() {
    let w = SceneTiming::new(secs(3), secs(15));
    assert!(w.contains(secs(3)));
    assert!(w.contains(fx(14_999_999)));
    assert!(!w.contains(secs(15)));
    assert!(!w.contains(fx(2_999_999)));
}

#[test]
fn timeline_has_seven_windows_without_gaps() {
    let m = SceneManager::new();
    assert_eq!(m.scenes.len(), 7);
    assert_eq!(m.scenes[0].start, Fixed::zero());
    assert_eq!(m.scenes[6].end, VideoConfig::standard().total_duration);
    for i in 0..6 {
        assert_eq!(m.scenes[i].end, m.scenes[i + 1].start);
    }
    for s in &m.scenes {
        assert!(s.start.raw < s.end.raw);
    }
    let ends: Vec<i64> = m.scenes.iter().map(|s| s.end.raw / 1_000_000).collect();
    assert_eq!(ends, vec![3, 15, 30, 45, 60, 70, 75]);
    assert_eq!((m.composer.width, m.composer.height), (1080, 1920));
    let small = SceneManager::default();
    assert_eq!(small.scenes, m.scenes);
}

#[test]
fn scene_follows_the_time() {
    let m = SceneManager::with_size(4, 4);
    assert_eq!(m.scene_index(secs(0)), 0);
    assert_eq!(m.scene_index(fx(2_999_999)), 0);
    assert_eq!(m.scene_index(secs(3)), 1);
    assert_eq!(m.scene_index(secs(15)), 2);
    assert_eq!(m.scene_index(secs(30)), 3);
    assert_eq!(m.scene_index(secs(45)), 4);
    assert_eq!(m.scene_index(secs(60)), 5);
    assert_eq!(m.scene_index(fx(69_999_999)), 5);
    assert_eq!(m.scene_index(secs(70)), 6);
    assert_eq!(m.scene_index(secs(75)), 6);
    assert_eq!(m.scene_index(secs(1000)), 6);
    assert_eq!(m.scene_index(secs(-1)), 6);
}

#[test]
fn scenes_have_their_layers() {
    let m = SceneManager::with_size(108, 192);
    let counts: Vec<usize> =
        [1, 10, 20, 40, 50, 65, 72].iter().map(|t| m.layers(secs(*t), 0).len()).collect();
    assert_eq!(counts, vec![7, 7, 10, 15, 14, 26, 9]);
    let first = m.layers(secs(0), 0);
    let shown: Vec<bool> = first.iter().map(|l| l.is_some()).collect();
    assert_eq!(shown, vec![true, true, true, false, false, false, true]);
    match first[6].unwrap().source {
        Source::FadeFromBlack { progress } => assert_eq!(progress, Fixed::zero()),
        _ => panic!("the first frame ends with the fade from black"),
    }
    match first[2].unwrap().source {
        Source::Character { expression, scale } => {
            assert_eq!(expression, Expression::Neutral);
            assert_eq!(scale.raw, 1_500_000);
        }
        _ => panic!("the third layer is the character"),
    }
    assert_eq!(first[2].unwrap().x, Placement::Within { base: 0, span: 108 });
    assert_eq!(first[2].unwrap().y, 192 - 900 + 100);
}

#[test]
fn first_frame_is_black() {
    let m = SceneManager::with_size(54, 96);
    let frame = m.render_frame(Fixed::zero(), 0, &Vec::new());
    assert_eq!((frame.width(), frame.height()), (54, 96));
    for y in 0..96 {
        for x in 0..54 {
            assert_eq!(frame.get_pixel(x, y), Color::rgba(0, 0, 0, 255));
        }
    }
}

#[test]
fn last_frame_is_black() {
    let m = SceneManager::with_size(54, 96);
    let frame = m.render_frame(secs(75), 2250, &Vec::new());
    let layers = m.layers(secs(75), 2250);
    let shown: Vec<bool> = layers.iter().map(|l| l.is_some()).collect();
    assert_eq!(frame.get_pixel(0, 0), Color::rgba(0, 0, 0, 255), "{:?} {:?}", shown, layers[8]);
    assert!(frame.into_bytes().chunks(4).all(|p| p == [0, 0, 0, 255]));
}

#[test]
fn frames_are_opaque_and_not_black_in_the_middle_of_a_scene() {
    let m = SceneManager::with_size(54, 96);
    for t in [1, 10, 20, 40, 50, 65, 72] {
        let bytes = m.render_frame(secs(t), 0, &Vec::new()).into_bytes();
        assert!(bytes.chunks(4).all(|p| p[3] == 255), "at {}", t);
        assert!(bytes.chunks(4).any(|p| p[0] > 40 || p[1] > 40 || p[2] > 40), "at {}", t);
    }
}

#[test]
fn rendering_a_frame_twice_gives_the_same_bytes() {
    let m = SceneManager::with_size(54, 96);
    for t in [fx(1_500_000), fx(10_033_333), fx(50_500_000)] {
        let requests = m.text_requests(t, 7);
        let runs: Vec<GlyphRun> = requests.iter().map(|_| block(12, 9)).collect();
        let a = m.render_frame(t, 7, &runs).into_bytes();
        let b = m.render_frame(t, 7, &runs).into_bytes();
        let c = SceneManager::with_size(54, 96).render_frame(t, 8, &runs).into_bytes();
        assert_eq!(a, b);
        assert_eq!(a, c);
    }
}

#[test]
fn frames_change_with_time() {
    let m = SceneManager::with_size(54, 96);
    let a = m.render_frame(secs(20), 0, &Vec::new()).into_bytes();
    let b = m.render_frame(secs(21), 0, &Vec::new()).into_bytes();
    assert_ne!(a, b);
}

#[test]
fn requests_list_the_lines_on_screen() {
    let m = SceneManager::with_size(108, 192);
    assert_eq!(texts_at(&m, secs(0)), Vec::<String>::new());
    assert_eq!(texts_at(&m, fx(2_500_000)), vec!["UNO NO MERCY"]);
    assert_eq!(texts_at(&m, secs(62)), vec!["DRAW UNTIL", "YOU CAN PLAY", "5"]);
    assert_eq!(
        texts_at(&m, secs(69)),
        vec![
            "DRAW UNTIL", "YOU CAN PLAY", "22", "0", "0", "1", "1", "2", "2", "3", "3", "4", "4",
            "5", "5", "6", "6", "7", "7", "8", "8", "9", "9", "0", "0", "1", "1", "2", "2", "3",
            "3", "4", "4", "5", "5", "6", "6", "Just pain."
        ]
    );
    assert_eq!(texts_at(&m, secs(16)), vec!["+2", "+2", "+2"]);
    assert_eq!(texts_at(&m, secs(20)), vec!["+4", "+4", "+4"]);
    assert_eq!(texts_at(&m, secs(23)), vec!["+10", "+10", "+10"]);
    assert_eq!(texts_at(&m, secs(27)), vec!["4 + 6 = 10", "+4", "+4", "+6", "+6"]);
    assert_eq!(texts_at(&m, secs(29)), vec!["THEY DRAW EVERYTHING!", "+4", "+4", "+6", "+6"]);
    assert_eq!(texts_at(&m, secs(46)), vec!["7", "7", "SWAP HANDS!"]);
    assert_eq!(texts_at(&m, secs(48)), vec!["0", "0", "PASS ALL HANDS!"]);
    assert_eq!(texts_at(&m, secs(51)), vec!["O//", "XX", "SKIP EVERYONE!"]);
    assert_eq!(texts_at(&m, secs(54)), vec!["ALL", "DA", "DISCARD ALL!"]);
    assert_eq!(texts_at(&m, secs(58)), vec!["?", "?", "COLOR ROULETTE!"]);
    assert_eq!(texts_at(&m, fx(70_500_000)), vec!["Ended friendships."]);
    assert_eq!(texts_at(&m, fx(71_200_000)), vec!["Ruined holidays."]);
    assert_eq!(texts_at(&m, fx(72_000_000)), vec!["Created villains."]);
    assert_eq!(texts_at(&m, secs(74)), vec!["who wants to play?"]);
    assert_eq!(texts_at(&m, fx(74_500_000)), vec!["who wants to play?", ">:)"]);
    assert_eq!(
        texts_at(&m, secs(40)),
        vec![
            "THE REAL WILDS:", "+10", "+10", "Draw 10", "<>4", "<>", "Rev +4", "?", "?", "Roulette"
        ]
    );
}

#[test]
fn requests_carry_their_sizes() {
    let m = SceneManager::with_size(108, 192);
    let r = m.text_requests(secs(62), 0);
    let sizes: Vec<i64> = r.iter().map(|q| q.size.raw).collect();
    assert_eq!(sizes, vec![80_000_000, 80_000_000, 150_000_000]);
    let r = m.text_requests(secs(46), 0);
    let sizes: Vec<i64> = r.iter().map(|q| q.size.raw).collect();
    assert_eq!(sizes[0], 75_000_000);
    assert_eq!(sizes[1], 26_400_000);
    let r = m.text_requests(secs(37), 0);
    let texts: Vec<&str> = r.iter().map(|q| q.text.as_str()).collect();
    assert_eq!(texts, vec!["+4", "+4", "HAS A COLOR!"]);
    assert_eq!(r[0].size.raw, 90_000_000);
    assert_eq!(r[2].size.raw, 60_000_000);
}

#[test]
fn flying_cards_ask_for_two_lines_a_card() {
    let m = SceneManager::with_size(108, 192);
    let r = m.text_requests(secs(5), 0);
    assert_eq!(r.len(), 31);
    assert_eq!(r[30].text, "168 CARDS");
    for q in &r[..30] {
        assert_eq!(q.text.len(), 1);
        assert!(q.text.as_bytes()[0].is_ascii_digit());
    }
    for pair in r[..30].chunks(2) {
        assert_eq!(pair[0].text, pair[1].text);
        assert!(pair[0].size.raw > pair[1].size.raw);
    }
    let again = m.text_requests(secs(5), 0);
    let a: Vec<(String, i64)> = r.into_iter().map(|q| (q.text, q.size.raw)).collect();
    let b: Vec<(String, i64)> = again.into_iter().map(|q| (q.text, q.size.raw)).collect();
    assert_eq!(a, b);
}

#[test]
fn text_shows_once_its_runs_are_given() {
    let m = SceneManager::with_size(216, 384);
    let t = secs(62);
    let requests = m.text_requests(t, 0);
    assert_eq!(requests.len(), 3);
    let runs: Vec<GlyphRun> = requests.iter().map(|_| block(60, 20)).collect();
    let with = m.render_frame(t, 0, &runs);
    let without = m.render_frame(t, 0, &Vec::new());
    assert_eq!(with.get_pixel(108, 70), Color::rgba(255, 50, 50, 255));
    assert_eq!(with.get_pixel(108, 100), Color::rgba(255, 50, 50, 255));
    assert_eq!(with.get_pixel(108, 160), Color::rgba(255, 230, 50, 255));
    assert_ne!(without.get_pixel(108, 70), Color::rgba(255, 50, 50, 255));
    assert_eq!(with.get_pixel(2, 2), without.get_pixel(2, 2));
    let short = m.render_frame(t, 0, &runs[..1].iter().map(|_| block(60, 20)).collect());
    assert_eq!(short.get_pixel(108, 70), Color::rgba(255, 50, 50, 255));
    assert_eq!(short.get_pixel(108, 100), without.get_pixel(108, 100));
}

#[test]
fn composing_layers_by_hand() {
    let character = Character::new();
    let layers = vec![
        Some(plain(Source::Flash { intensity: Fixed::one() }, Placement::At(0), 0)),
        None,
        Some(Layer {
            source: Source::Text {
                text: "hi",
                size: Fixed::from_int(10),
                style: TextStyle::plain(Color::rgba(255, 0, 0, 255)),
                halo: None,
            },
            scale: Fixed::one(),
            x: Placement::Within { base: 0, span: 40 },
            y: 5,
            alpha: Fixed::one(),
        }),
        Some(plain(
            Source::Card { card: Card::new(CardColor::Blue, CardType::Skip), width: 10, height: 14 },
            Placement::At(30),
            16,
        )),
        Some(plain(Source::FadeToBlack { progress: fx(500_000) }, Placement::At(0), 0)),
    ];
    let requests = layer_requests(&layers);
    let asked: Vec<&str> = requests.iter().map(|q| q.text.as_str()).collect();
    assert_eq!(asked, vec!["hi", "O/", "X"]);
    let runs = vec![block(10, 6), block(2, 2), block(1, 1)];
    let frame = compose(&character, &layers, &runs, 40, 30);
    assert_eq!((frame.width(), frame.height()), (40, 30));
    assert_eq!(frame.get_pixel(0, 0), Color::rgba(128, 128, 128, 255));
    assert_eq!(frame.get_pixel(10, 5), Color::rgba(128, 0, 0, 255));
    assert_eq!(frame.get_pixel(19, 10), Color::rgba(128, 0, 0, 255));
    assert_eq!(frame.get_pixel(20, 10), Color::rgba(128, 128, 128, 255));
    assert_eq!(frame.get_pixel(9, 5), Color::rgba(128, 128, 128, 255));
    let none = compose(&character, &Vec::new(), &runs, 3, 2);
    assert!(none.into_bytes().iter().all(|&v| v == 0));
}

#[test]
fn counter_texts() {
    assert_eq!(count_text(0), "0");
    assert_eq!(count_text(9), "9");
    assert_eq!(count_text(10), "10");
    assert_eq!(count_text(24), "24");
    assert_eq!(count_text(25), "25");
    assert_eq!(count_text(26), "25");
    assert_eq!(count_text(u32::MAX), "25");
}

#[test]
fn placement_resolves_to_a_column() {
    assert_eq!(Placement::At(-7).resolve(100), -7);
    assert_eq!(Placement::Within { base: 0, span: 1080 }.resolve(750), 165);
    assert_eq!(Placement::Within { base: 3, span: 100 }.resolve(201), -47);
    assert_eq!(Placement::Within { base: i32::MAX, span: i32::MAX }.resolve(0), i32::MAX);
    assert_eq!(Placement::Within { base: i32::MIN, span: i32::MIN }.resolve(u32::MAX), i32::MIN);
}
