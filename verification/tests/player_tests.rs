use music_player::player::{Player, PlayerError, LONGEST_PLAY_TIME};
use music_player::progress::{Progress, FULL_SCALE};
use music_player::sink::SinkCommand;
use music_player::song::Song;
use music_player::volume::{lower, raise, step, BIG_STEP, FULL_VOLUME, SMALL_STEP};
use rand::rngs::StdRng;
use rand::seq::SliceRandom;
use rand::SeedableRng;

fn song(name: &str, duration: u64) -> Song {
    Song::from_path(format!("music/{}.mp3", name), duration)
}

fn catalog(len: usize) -> Vec<Song> {
    (0..len).map(|i| song(&format!("track_{}", i), 1000 * (i as u64 + 1))).collect()
}

fn session(len: usize, seed: u64, now: u64) -> Player {
    Player::new(catalog(len), StdRng::seed_from_u64(seed), now).unwrap().0
}

fn paths(songs: &Vec<Song>) -> Vec<String> {
    songs.iter().map(|s| s.path.clone()).collect()
}

fn sorted(mut names: Vec<String>) -> Vec<String> {
    names.sort();
    names
}

#[test]
fn empty_catalog_gives_no_session() {
    let made = Player::new(Vec::new(), StdRng::seed_from_u64(1), 0);
    match made {
        Err(e) => {
            assert_eq!(e, PlayerError::EmptyCatalog);
            assert_eq!(e.message(), "no playable tracks found");
        }
        Ok(_) => panic!("a session over no tracks"),
    }
}

#[test]
fn new_session_starts_paused_at_the_first_track() {
    let (player, commands) = Player::new(catalog(5), StdRng::seed_from_u64(3), 700).unwrap();
    let state = player.state();
    assert_eq!(state.index, 0);
    assert!(state.paused);
    assert_eq!(state.play_time, 0);
    assert_eq!(state.song, player.song_selection()[0]);
    assert_eq!(player.volume(), FULL_VOLUME);
    assert_eq!(
        commands,
        vec![SinkCommand::Pause, SinkCommand::Append(player.song_selection()[0].path.clone())]
    );
}

#[test]
fn new_session_holds_the_tracks_it_was_given() {
    let player = session(40, 11, 0);
    assert_eq!(player.song_selection().len(), 40);
    assert_eq!(sorted(paths(player.song_selection())), sorted(paths(&catalog(40))));
}

#[test]
fn new_session_is_shuffled_as_rand_shuffles() {
    let player = session(40, 11, 0);
    let mut expected = paths(&catalog(40));
    expected.shuffle(&mut StdRng::seed_from_u64(11));
    assert_eq!(paths(player.song_selection()), expected);
    assert_ne!(paths(player.song_selection()), paths(&catalog(40)));
}

#[test]
fn single_track_session() {
    let (mut player, commands) = Player::new(catalog(1), StdRng::seed_from_u64(5), 0).unwrap();
    assert_eq!(commands[1], SinkCommand::Append("music/track_0.mp3".to_string()));
    let queued = player.update(0, 10);
    assert_eq!(player.state().index, 0);
    assert_eq!(queued, vec![SinkCommand::Append("music/track_0.mp3".to_string())]);
}

#[test]
fn three_ticks_on_an_empty_sink_cycle_and_shuffle_once() {
    let mut player = session(3, 7, 0);
    let mut rng = StdRng::seed_from_u64(7);
    let mut order = paths(&catalog(3));
    order.shuffle(&mut rng);
    assert_eq!(player.state().index, 0);
    assert_eq!(paths(player.song_selection()), order);

    let first = player.update(0, 25);
    assert_eq!(player.state().index, 1);
    assert_eq!(paths(player.song_selection()), order);
    assert_eq!(first, vec![SinkCommand::Append(order[1].clone())]);

    let second = player.update(0, 50);
    assert_eq!(player.state().index, 2);
    assert_eq!(paths(player.song_selection()), order);
    assert_eq!(second, vec![SinkCommand::Append(order[2].clone())]);

    let third = player.update(0, 75);
    order.shuffle(&mut rng);
    assert_eq!(player.state().index, 0);
    assert_eq!(paths(player.song_selection()), order);
    assert_eq!(third, vec![SinkCommand::Append(order[0].clone())]);
    assert_eq!(player.state().song.path, order[0]);
}

#[test]
fn advancing_once_for_each_track_returns_to_the_first() {
    for len in 1..12usize {
        let mut player = session(len, 21 + len as u64, 0);
        for step in 1..=len {
            player.next_song(step as u64);
            assert_eq!(player.state().index, step % len);
        }
        assert_eq!(player.state().index, 0);
        assert_eq!(sorted(paths(player.song_selection())), sorted(paths(&catalog(len))));
    }
}

#[test]
fn current_track_is_the_catalog_entry_after_every_operation() {
    let mut player = session(4, 2, 0);
    for round in 0..20u64 {
        match round % 4 {
            0 => {
                player.update(0, round * 30);
            }
            1 => {
                player.pause(round * 30);
            }
            2 => {
                player.skip_song(round * 30);
            }
            _ => {
                player.update(1, round * 30);
            }
        }
        let state = player.state();
        assert_eq!(state.song, player.song_selection()[state.index]);
    }
}

#[test]
fn update_with_a_filled_sink_changes_nothing() {
    let mut player = session(3, 9, 0);
    player.pause(100);
    let before = paths(player.song_selection());
    let commands = player.update(2, 5000);
    assert!(commands.is_empty());
    assert_eq!(player.state().index, 0);
    assert!(!player.state().paused);
    assert_eq!(paths(player.song_selection()), before);
    assert_eq!(player.get_song_progress(5000).elapsed, 4900);
}

#[test]
fn advance_resets_play_time_and_keeps_pause() {
    let mut player = session(3, 9, 0);
    player.pause(100);
    player.pause(400);
    assert_eq!(player.state().play_time, 300);
    assert!(player.state().paused);
    player.update(0, 1000);
    assert_eq!(player.state().play_time, 0);
    assert!(player.state().paused);
    assert_eq!(player.get_song_progress(9000).elapsed, 0);
    player.pause(2000);
    assert_eq!(player.get_song_progress(2600).elapsed, 600);
}

#[test]
fn pause_toggles_and_counts_the_run() {
    let mut player = session(2, 4, 1000);
    assert!(player.state().paused);
    assert_eq!(player.pause(1500), vec![SinkCommand::Play]);
    assert!(!player.state().paused);
    assert_eq!(player.state().play_time, 0);
    assert_eq!(player.pause(2750), vec![SinkCommand::Pause]);
    assert!(player.state().paused);
    assert_eq!(player.state().play_time, 1250);
    assert_eq!(player.pause(10_000), vec![SinkCommand::Play]);
    assert_eq!(player.pause(10_001), vec![SinkCommand::Pause]);
    assert_eq!(player.state().play_time, 1251);
}

#[test]
fn toggling_twice_restores_pause_and_never_lowers_play_time() {
    for start_playing in [false, true] {
        let mut player = session(2, 4, 0);
        if start_playing {
            player.pause(10);
        }
        let paused = player.state().paused;
        let mut last = player.state().play_time;
        for (first, second) in [(100u64, 200u64), (300, 300), (500, 450), (700, 900)] {
            player.pause(first);
            assert_eq!(player.state().paused, !paused);
            assert!(player.state().play_time >= last);
            last = player.state().play_time;
            player.pause(second);
            assert_eq!(player.state().paused, paused);
            assert!(player.state().play_time >= last);
            last = player.state().play_time;
        }
    }
}

#[test]
fn a_clock_that_runs_backwards_counts_nothing() {
    let mut player = session(2, 4, 1000);
    player.pause(5000);
    assert_eq!(player.get_song_progress(4000).elapsed, 0);
    player.pause(3000);
    assert_eq!(player.state().play_time, 0);
}

#[test]
fn play_time_stops_at_the_longest_that_is_counted() {
    let mut player = session(1, 4, 0);
    player.pause(0);
    player.pause(LONGEST_PLAY_TIME - 5);
    assert_eq!(player.state().play_time, LONGEST_PLAY_TIME - 5);
    player.pause(0);
    assert_eq!(player.get_song_progress(100).elapsed, LONGEST_PLAY_TIME);
    player.pause(100);
    assert_eq!(player.state().play_time, LONGEST_PLAY_TIME);
    assert_eq!(player.get_song_progress(200).reading(), FULL_SCALE);
}

#[test]
fn progress_while_playing_counts_the_run_in_progress() {
    let (mut player, _) =
        Player::new(vec![song("a", 200_000)], StdRng::seed_from_u64(1), 0).unwrap();
    player.pause(1000);
    let progress = player.get_song_progress(51_000);
    assert_eq!(progress, Progress { elapsed: 50_000, duration: 200_000 });
    assert_eq!(progress.reading(), 2500);
    player.pause(51_000);
    player.pause(60_000);
    let progress = player.get_song_progress(70_000);
    assert_eq!(progress.elapsed, 60_000);
    assert_eq!(progress.reading(), 3000);
}

#[test]
fn progress_while_paused_is_the_counted_play_time() {
    let (mut player, _) =
        Player::new(vec![song("a", 200_000)], StdRng::seed_from_u64(1), 0).unwrap();
    assert_eq!(player.get_song_progress(123_456).elapsed, 0);
    player.pause(0);
    player.pause(20_000);
    assert_eq!(player.get_song_progress(999_999).elapsed, 20_000);
    assert_eq!(player.get_song_progress(999_999).reading(), 1000);
}

#[test]
fn reading_rounds_down() {
    assert_eq!(Progress { elapsed: 1, duration: 3 }.reading(), 3333);
    assert_eq!(Progress { elapsed: 2, duration: 3 }.reading(), 6666);
    assert_eq!(Progress { elapsed: 1, duration: 20_000 }.reading(), 0);
    assert_eq!(Progress { elapsed: 19_999, duration: 20_000 }.reading(), 9999);
    assert_eq!(Progress { elapsed: 123_456, duration: 1_000_000 }.reading(), 1234);
}

#[test]
fn reading_stays_in_range() {
    let times = [0u64, 1, 2, 999, 1000, 1001, 5000, u64::MAX - 1, u64::MAX];
    for elapsed in times {
        for duration in times {
            let reading = Progress { elapsed, duration }.reading();
            assert!(reading <= FULL_SCALE, "{} of {}", elapsed, duration);
        }
    }
}

#[test]
fn reading_is_full_where_play_time_exceeds_the_length() {
    assert_eq!(Progress { elapsed: 1000, duration: 1000 }.reading(), FULL_SCALE);
    assert_eq!(Progress { elapsed: 5000, duration: 1000 }.reading(), FULL_SCALE);
    assert_eq!(Progress { elapsed: u64::MAX, duration: 1 }.reading(), FULL_SCALE);
}

#[test]
fn reading_of_a_track_without_length_is_zero() {
    assert_eq!(Progress { elapsed: 0, duration: 0 }.reading(), 0);
    assert_eq!(Progress { elapsed: 777, duration: 0 }.reading(), 0);
    let (mut player, _) = Player::new(vec![song("a", 0)], StdRng::seed_from_u64(1), 0).unwrap();
    player.pause(0);
    assert_eq!(player.get_song_progress(5000).reading(), 0);
}

#[test]
fn reading_of_long_times_does_not_overflow() {
    let progress = Progress { elapsed: u64::MAX - 1, duration: u64::MAX };
    assert_eq!(progress.reading(), 9999);
    let progress = Progress { elapsed: u64::MAX / 2, duration: u64::MAX };
    assert_eq!(progress.reading(), 4999);
}

#[test]
fn label_shows_name_and_percentage() {
    assert_eq!(Progress { elapsed: 50_000, duration: 200_000 }.label("my song"), "my song: 25.00%");
    assert_eq!(Progress { elapsed: 123_456, duration: 1_000_000 }.label("a"), "a: 12.34%");
    assert_eq!(Progress { elapsed: 0, duration: 1000 }.label("a"), "a: 0.00%");
    assert_eq!(Progress { elapsed: 7, duration: 1000 }.label("a"), "a: 0.70%");
    assert_eq!(Progress { elapsed: 5, duration: 10_000 }.label("a"), "a: 0.05%");
    assert_eq!(Progress { elapsed: 9_999, duration: 10_000 }.label("a"), "a: 99.99%");
    assert_eq!(Progress { elapsed: 2000, duration: 1000 }.label("a"), "a: 100.00%");
    assert_eq!(Progress { elapsed: 1, duration: 0 }.label(""), ": 0.00%");
}

#[test]
fn skip_starts_a_fresh_track_and_plays() {
    let mut player = session(3, 8, 0);
    assert!(player.state().paused);
    let commands = player.skip_song(4000);
    assert_eq!(player.state().index, 1);
    assert!(!player.state().paused);
    assert_eq!(player.state().play_time, 0);
    assert_eq!(
        commands,
        vec![
            SinkCommand::Clear,
            SinkCommand::Append(player.song_selection()[1].path.clone()),
            SinkCommand::Play,
        ]
    );
    let progress = player.get_song_progress(4000);
    assert_eq!(progress.elapsed, 0);
    assert_eq!(progress.reading(), 0);
    assert_eq!(progress.duration, player.song_selection()[1].duration);
    assert_eq!(player.get_song_progress(4250).elapsed, 250);
}

#[test]
fn skip_while_playing_drops_the_play_time() {
    let mut player = session(3, 8, 0);
    player.pause(0);
    assert_eq!(player.get_song_progress(900).elapsed, 900);
    player.skip_song(900);
    assert!(!player.state().paused);
    assert_eq!(player.get_song_progress(900).elapsed, 0);
    assert_eq!(player.get_song_progress(1000).elapsed, 100);
}

#[test]
fn skip_from_the_last_track_wraps() {
    let mut player = session(2, 8, 0);
    player.skip_song(10);
    assert_eq!(player.state().index, 1);
    player.skip_song(20);
    assert_eq!(player.state().index, 0);
    assert_eq!(sorted(paths(player.song_selection())), sorted(paths(&catalog(2))));
}

#[test]
fn add_to_queue_names_the_path() {
    let player = session(2, 8, 0);
    let command = player.add_to_queue(song("other", 5));
    assert_eq!(command, SinkCommand::Append("music/other.mp3".to_string()));
    assert_eq!(command.clone(), command);
}

#[test]
fn volume_moves_by_steps() {
    let mut player = session(2, 8, 0);
    assert_eq!(player.volume(), 100);
    assert_eq!(player.volume_down(false), vec![SinkCommand::SetVolume(95)]);
    assert_eq!(player.volume_down(true), vec![SinkCommand::SetVolume(75)]);
    assert_eq!(player.volume(), 75);
    assert_eq!(player.volume_up(false), vec![SinkCommand::SetVolume(80)]);
    assert_eq!(player.volume_up(true), vec![SinkCommand::SetVolume(100)]);
    assert_eq!(player.volume(), 100);
}

#[test]
fn volume_stays_between_zero_and_full() {
    let mut player = session(2, 8, 0);
    for _ in 0..30 {
        player.volume_up(true);
        assert!(player.volume() <= FULL_VOLUME);
    }
    assert_eq!(player.volume(), FULL_VOLUME);
    for _ in 0..30 {
        player.volume_down(false);
        assert!(player.volume() <= FULL_VOLUME);
    }
    assert_eq!(player.volume(), 0);
    assert_eq!(player.volume_down(true), vec![SinkCommand::SetVolume(0)]);
    assert_eq!(player.volume_up(false), vec![SinkCommand::SetVolume(SMALL_STEP)]);
}

#[test]
fn volume_is_kept_over_track_changes() {
    let mut player = session(3, 8, 0);
    player.volume_down(true);
    player.skip_song(10);
    player.update(0, 20);
    player.pause(30);
    assert_eq!(player.volume(), FULL_VOLUME - BIG_STEP);
}

#[test]
fn raise_and_lower_hold_at_the_ends() {
    assert_eq!(step(false), SMALL_STEP);
    assert_eq!(step(true), BIG_STEP);
    assert_eq!(raise(0, 5), 5);
    assert_eq!(raise(95, 5), 100);
    assert_eq!(raise(96, 5), 100);
    assert_eq!(raise(100, 255), 100);
    assert_eq!(raise(0, 255), 100);
    assert_eq!(raise(250, 250), 100);
    assert_eq!(lower(100, 5), 95);
    assert_eq!(lower(5, 5), 0);
    assert_eq!(lower(4, 5), 0);
    assert_eq!(lower(0, 255), 0);
    for volume in 0..=100u8 {
        for by in [0u8, 1, 5, 20, 99, 100, 101, 255] {
            assert!(raise(volume, by) <= FULL_VOLUME);
            assert!(lower(volume, by) <= FULL_VOLUME);
        }
    }
}
