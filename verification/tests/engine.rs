use mb2_game_audio::GameAudio;
use mb2_game_audio::Note;
use mb2_game_audio::Song;
use mb2_game_audio::duty_level;
use mb2_game_audio::frequency;

fn demo_song() -> Song {
    Song::new(vec![
        Note::rest(500),
        Note::note(68, 250, 1),
        Note::note(69, 250, 2),
        Note::note(68, 250, 3),
        Note::note(66, 500, 1),
    ])
}

#[test]
fn note_factories_and_getters() {
    let n = Note::note(69, 250, 3);
    assert_eq!(n.key(), 69);
    assert_eq!(n.volume(), 3);
    assert_eq!(n.duration(), 250);
    assert!(!n.is_rest());
    let r = Note::rest(500);
    assert_eq!(r.duration(), 500);
    assert!(r.is_rest());
}

#[test]
fn song_starts_at_the_beginning() {
    let s = demo_song();
    assert_eq!(s.position(), 0);
    assert_eq!(s.len(), 5);
}

#[test]
fn song_restart_resets_position() {
    let mut engine = GameAudio::new();
    engine.play(demo_song());
    engine.handle_interrupt();
    let mut s = engine.stop().unwrap();
    assert_eq!(s.position(), 2);
    s.restart();
    assert_eq!(s.position(), 0);
    assert_eq!(s.len(), 5);
}

#[test]
fn new_engine_is_idle_and_silent() {
    let engine = GameAudio::new();
    assert!(!engine.is_playing());
    assert!(engine.speaker_silent());
    assert_eq!(engine.speaker_tone(), None);
    assert_eq!(engine.timer_armed_us(), None);
    assert_eq!(engine.playing_position(), None);
}

#[test]
fn scenario_demo_song_playback() {
    let mut engine = GameAudio::new();
    let prev = engine.play(demo_song());
    assert_eq!(prev, None);

    // The first advance step ran inside `play`: index 0 is a rest, so the
    // output is silenced, the timer armed for 500 ms, the cursor left at 1.
    assert!(engine.speaker_silent());
    assert_eq!(engine.speaker_tone(), None);
    assert_eq!(engine.timer_armed_us(), Some(500_000));
    assert_eq!(engine.playing_position(), Some(1));

    // The next four interrupts sound the four tones with increasing duty
    // for volumes 1, 2, 3 and back to 1, and their own durations.
    let expected = [
        (frequency(68), duty_level(1), 250_000),
        (frequency(69), duty_level(2), 250_000),
        (frequency(68), duty_level(3), 250_000),
        (frequency(66), duty_level(1), 500_000),
    ];
    for (i, (hz, duty, us)) in expected.iter().enumerate() {
        engine.handle_interrupt();
        assert_eq!(engine.speaker_tone(), Some((*hz, *duty)), "tone {}", i);
        assert!(!engine.speaker_silent(), "tone {}", i);
        assert_eq!(engine.timer_armed_us(), Some(*us), "tone {}", i);
    }
    assert!(duty_level(1) < duty_level(2) && duty_level(2) < duty_level(3));

    // Past the last note the cursor has wrapped to 0; the interrupt after
    // that plays the rest again.
    assert_eq!(engine.playing_position(), Some(0));
    engine.handle_interrupt();
    assert!(engine.speaker_silent());
    assert_eq!(engine.timer_armed_us(), Some(500_000));
    assert_eq!(engine.playing_position(), Some(1));
}

#[test]
fn positions_cycle_in_order() {
    let mut engine = GameAudio::new();
    let song = Song::new(vec![
        Note::note(60, 100, 1),
        Note::note(62, 100, 1),
        Note::note(64, 100, 1),
    ]);
    engine.play(song);
    // After each advance the cursor stands one past the note just played,
    // wrapping: 1, 2, 0, 1, 2, 0, ...
    for step in 1u32..=9 {
        assert_eq!(engine.playing_position(), Some(step as usize % 3));
        engine.handle_interrupt();
    }
}

#[test]
fn play_returns_previous_song_where_it_was_left() {
    let mut engine = GameAudio::new();
    engine.play(demo_song());
    engine.handle_interrupt();
    engine.handle_interrupt();
    assert_eq!(engine.playing_position(), Some(3));

    let s2 = Song::new(vec![Note::note(72, 100, 4)]);
    let s1 = engine.play(s2).expect("a song was playing");
    // The replaced song comes back with its cursor exactly where it was.
    assert_eq!(s1.position(), 3);
    assert_eq!(s1.len(), 5);
    // The new song (one note long) started at once and wrapped to 0.
    assert_eq!(engine.playing_position(), Some(0));
    assert_eq!(engine.speaker_tone(), Some((frequency(72), duty_level(4))));
    assert_eq!(engine.timer_armed_us(), Some(100_000));
}

#[test]
fn stop_on_idle_returns_none_and_stays_silent() {
    let mut engine = GameAudio::new();
    assert_eq!(engine.stop(), None);
    assert!(engine.speaker_silent());
    assert_eq!(engine.timer_armed_us(), None);
}

#[test]
fn stop_on_playing_returns_song_and_silences() {
    let mut engine = GameAudio::new();
    engine.play(demo_song());
    engine.handle_interrupt();
    assert!(!engine.speaker_silent());
    let song = engine.stop().expect("a song was playing");
    assert_eq!(song.position(), 2);
    assert!(engine.speaker_silent());
    assert!(!engine.is_playing());
    assert_eq!(engine.timer_armed_us(), None);
}

#[test]
fn stop_twice_is_idempotent() {
    let mut engine = GameAudio::new();
    engine.play(demo_song());
    let first = engine.stop();
    assert!(first.is_some());
    assert!(engine.speaker_silent());
    let second = engine.stop();
    assert_eq!(second, None);
    assert!(engine.speaker_silent());
    assert_eq!(engine.timer_armed_us(), None);
}

#[test]
fn single_note_song_loops_on_itself() {
    let mut engine = GameAudio::new();
    engine.play(Song::new(vec![Note::note(127, 65535, 6)]));
    for _ in 0..3 {
        assert_eq!(engine.playing_position(), Some(0));
        assert_eq!(engine.speaker_tone(), Some((12544, 128)));
        // The largest possible duration arms the timer for 65535 ms.
        assert_eq!(engine.timer_armed_us(), Some(65_535_000));
        engine.handle_interrupt();
    }
}

#[test]
fn rests_inside_a_song_silence_between_tones() {
    let mut engine = GameAudio::new();
    engine.play(Song::new(vec![
        Note::note(60, 100, 2),
        Note::rest(300),
        Note::note(60, 100, 2),
    ]));
    assert_eq!(engine.speaker_tone(), Some((frequency(60), duty_level(2))));
    engine.handle_interrupt();
    assert!(engine.speaker_silent());
    assert_eq!(engine.timer_armed_us(), Some(300_000));
    engine.handle_interrupt();
    assert_eq!(engine.speaker_tone(), Some((frequency(60), duty_level(2))));
}
