use surfdl::wave::{Crest, Ebb, Wave, EBB_FRAMES, WAVE_WIDTH};

#[test]
fn the_wave_starts_with_three_crests() {
    let wave = Wave::new();
    assert_eq!(
        wave.crests(),
        vec![
            Crest { pos: 0, forward: true },
            Crest { pos: -2, forward: false },
            Crest { pos: 2, forward: true },
        ]
    );
    assert_eq!(WAVE_WIDTH, 29);
}

#[test]
fn the_first_frames_of_the_wave() {
    let mut wave = Wave::new();
    assert_eq!(wave.line(), "▂▃▂▃▄▅▆▇█▇▆▅▄▃▂▂▃▄▅▆▇█▇▆▅▄▃▂▃");
    wave.advance();
    assert_eq!(wave.line(), "▃▂▃▂▃▄▅▆▇█▇▆▅▄▃▃▄▅▆▇█▇▆▅▄▃▂▃▄");
    wave.advance();
    assert_eq!(wave.line(), "▄▃▂▃▂▃▄▅▆▇█▇▆▅▄▄▅▆▇█▇▆▅▄▃▂▃▄▅");
}

#[test]
fn crests_turn_round_past_the_half_of_the_ring() {
    let mut wave = Wave::new();
    for _ in 0..15 {
        wave.advance();
    }
    assert_eq!(wave.crests()[0], Crest { pos: 15, forward: false });
    wave.advance();
    assert_eq!(wave.crests()[0], Crest { pos: 14, forward: false });
    for _ in 0..24 {
        wave.advance();
    }
    assert_eq!(
        wave.crests(),
        vec![
            Crest { pos: -10, forward: false },
            Crest { pos: 12, forward: true },
            Crest { pos: -12, forward: false },
        ]
    );
    assert_eq!(wave.line(), "▄▃▄▅▆▇█▇▆▅▄▃▂▃▄▄▃▂▃▂▃▄▅▆▇█▇▆▅");
}

#[test]
fn the_wave_runs_for_any_number_of_frames() {
    let mut wave = Wave::new();
    for _ in 0..1000 {
        wave.advance();
        assert_eq!(wave.line().chars().count(), 29);
        for crest in wave.crests() {
            assert!(-15 <= crest.pos && crest.pos <= 15);
        }
    }
}

#[test]
fn the_ebb_lasts_eighty_frames() {
    assert_eq!(EBB_FRAMES, 80);
    let mut ebb = Ebb::new();
    let mut frames = 0;
    while let Some(frame) = ebb.frame() {
        assert_eq!(frame.line.chars().count(), 29);
        assert_eq!(ebb.counter(), frames);
        frames += 1;
        ebb.advance();
    }
    assert_eq!(frames, 80);
    let crests = ebb.crests();
    ebb.advance();
    assert_eq!(ebb.counter(), 80);
    assert_eq!(ebb.crests(), crests);
    assert!(ebb.frame().is_none());
}

#[test]
fn the_frames_of_the_ebb() {
    let mut ebb = Ebb::new();
    let mut seen = Vec::new();
    while let Some(frame) = ebb.frame() {
        seen.push((ebb.crests(), frame));
        ebb.advance();
    }
    let positions = |k: usize| -> Vec<i32> { seen[k].0.iter().map(|c| c.pos).collect() };

    assert_eq!(positions(0), vec![12, 12, 12]);
    assert_eq!(seen[0].1.line, "▂▃▄▅▆▇█▇▆▅▄▃▂▃▄▅▆▇█▇▆▅▄▃▂▁▁▁▁");
    assert_eq!((seen[0].1.remaining_secs, seen[0].1.dots), (4, 0));

    assert_eq!(positions(1), vec![8, 16, 8]);
    assert_eq!(seen[1].1.line, "▅▆▇█▇▆▅▄▃▄▅▆▇▆▅▄▃▄▅▆▇█▇▆▅▄▃▃▄");
    assert_eq!((seen[1].1.remaining_secs, seen[1].1.dots), (4, 0));

    assert_eq!(positions(20), vec![9, 15, 9]);
    assert_eq!(seen[20].1.line, "▁▁▁▂▃▃▄▅▆▆▆▅▄▅▆▆▆▅▄▃▃▂▁▁▁▂▃▃▂");
    assert_eq!((seen[20].1.remaining_secs, seen[20].1.dots), (3, 1));

    assert_eq!(positions(41), vec![24, 0, 24]);
    assert_eq!(seen[41].1.line, "▂▃▃▄▄▅▅▆▆▇▇███▇▇▆▆▅▅▄▄▃▃▂▃▃▃▃");
    assert_eq!((seen[41].1.remaining_secs, seen[41].1.dots), (2, 2));

    assert_eq!(positions(79), vec![4, 20, 4]);
    assert_eq!(seen[79].1.line, "▁▁▁▁▁▁▁▁▁▁▁▁▁▁▁▁▁▁▁▁▁▁▁▁▁▁▁▁▁");
    assert_eq!((seen[79].1.remaining_secs, seen[79].1.dots), (1, 3));
}
