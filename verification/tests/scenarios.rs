//! Transport scenarios driven at the model level: the decoder worker's and
//! listener's parts are played by the test in the order the channels fix.

use libaurex::callback::render;
use libaurex::decoding_loop::{initialise_track, process_packet, Decoder, PacketOutcome};
use libaurex::engine::AudioEngine;
use libaurex::enums::{EngineSignal, PlayerState, ResamplingQuality, CMD};
use libaurex::fifo::AudioFifo;
use libaurex::listener::{handle_signal, ListenerAction};
use libaurex::singletons::{set_decoder_eof, SharedCounters};

const RATE: u32 = 100;

fn fresh_decoder() -> Decoder {
    Decoder { audio_stream_index: 0, source_rate: 0, cancel_requested: false, session_open: false }
}

fn track_frames(start: i32, n: i32) -> Vec<(i32, i32)> {
    let mut v = Vec::new();
    let mut i = start;
    while i < start + n {
        v.push((i, -i));
        i += 1;
    }
    v
}

#[test]
fn s1_play_through() {
    let (cmd_tx, cmd_rx) = crossbeam_channel::unbounded::<CMD>();
    let (sig_tx, sig_rx) = crossbeam_channel::unbounded::<EngineSignal>();
    let mut e = AudioEngine::new(RATE, 2, ResamplingQuality::High, cmd_tx);
    let mut fifo = AudioFifo::new(1000);
    let mut c = SharedCounters::new();
    let mut d = fresh_decoder();

    e.load("t1.flac", &mut fifo, &mut c).unwrap();
    let cmd = cmd_rx.try_recv().unwrap();
    assert!(cmd == CMD::Start("t1.flac".to_string(), ResamplingQuality::High));

    // The worker opens the three-second track and decodes it whole.
    initialise_track(&mut e, &mut c, &mut d, 0, RATE, Some(3_000_000));
    assert_eq!(process_packet(&d, &mut fifo, 0, &track_frames(1, 300)), PacketOutcome::Written(300));
    set_decoder_eof(&mut c, true);

    assert!(e.preroll_complete(&fifo, &c));
    e.play(&fifo, &c).unwrap();
    assert_eq!(e.state, PlayerState::PLAYING);

    // At one second, progress reads 1.0 s.
    let (_, o1) = render(&mut fifo, &mut c, RATE, 100, &sig_tx);
    assert_eq!(o1.frames_read, 100);
    assert_eq!(e.get_progress(&c), Ok(1_000_000));

    // Drain to the end: MediaEnd arrives exactly once, after about the
    // track duration, and the listener empties the engine.
    let mut media_ends = 0;
    for _ in 0..5 {
        let (_, o) = render(&mut fifo, &mut c, RATE, 100, &sig_tx);
        if o.media_end {
            media_ends += 1;
            assert_eq!(sig_rx.try_recv(), Ok(EngineSignal::MediaEnd));
            let action = handle_signal(&mut e, &mut fifo, &mut c, EngineSignal::MediaEnd);
            assert_eq!(action, ListenerAction::InvokeCallback);
        }
    }
    assert_eq!(media_ends, 1);
    assert_eq!(e.state, PlayerState::EMPTY);
    assert!(sig_rx.try_recv().is_err());
}

#[test]
fn s2_pause_does_not_advance_progress() {
    let (cmd_tx, _cmd_rx) = crossbeam_channel::unbounded::<CMD>();
    let (sig_tx, _sig_rx) = crossbeam_channel::unbounded::<EngineSignal>();
    let mut e = AudioEngine::new(RATE, 2, ResamplingQuality::High, cmd_tx);
    let mut fifo = AudioFifo::new(1000);
    let mut c = SharedCounters::new();
    let mut d = fresh_decoder();

    e.load("t1.flac", &mut fifo, &mut c).unwrap();
    initialise_track(&mut e, &mut c, &mut d, 0, RATE, Some(60_000_000));
    process_packet(&d, &mut fifo, 0, &track_frames(1, 1000));
    e.play(&fifo, &c).unwrap();

    // Two seconds of playback, then pause.
    render(&mut fifo, &mut c, RATE, 100, &sig_tx);
    render(&mut fifo, &mut c, RATE, 100, &sig_tx);
    assert_eq!(e.get_progress(&c), Ok(2_000_000));
    e.pause().unwrap();
    assert_eq!(e.state, PlayerState::PAUSED);

    // While paused the device pulls nothing: progress stands still.
    assert_eq!(e.get_progress(&c), Ok(2_000_000));

    // Resume; three more seconds land at five, not six.
    e.play(&fifo, &c).unwrap();
    render(&mut fifo, &mut c, RATE, 100, &sig_tx);
    render(&mut fifo, &mut c, RATE, 100, &sig_tx);
    render(&mut fifo, &mut c, RATE, 100, &sig_tx);
    assert_eq!(e.get_progress(&c), Ok(5_000_000));
}

#[test]
fn s3_seek_while_playing() {
    let (cmd_tx, cmd_rx) = crossbeam_channel::unbounded::<CMD>();
    let (sig_tx, _sig_rx) = crossbeam_channel::unbounded::<EngineSignal>();
    let mut e = AudioEngine::new(RATE, 2, ResamplingQuality::High, cmd_tx);
    let mut fifo = AudioFifo::new(1000);
    let mut c = SharedCounters::new();
    let mut d = fresh_decoder();

    e.load("t1.flac", &mut fifo, &mut c).unwrap();
    cmd_rx.try_recv().unwrap();
    initialise_track(&mut e, &mut c, &mut d, 0, RATE, Some(60_000_000));
    process_packet(&d, &mut fifo, 0, &track_frames(1, 600));
    e.play(&fifo, &c).unwrap();
    render(&mut fifo, &mut c, RATE, 100, &sig_tx);
    render(&mut fifo, &mut c, RATE, 100, &sig_tx);
    assert_eq!(e.get_progress(&c), Ok(2_000_000));

    // Seek to thirty seconds.
    let was_playing = e.seek_begin(&mut d, &mut fifo);
    assert!(was_playing);
    // The decode loop observes the flag and yields without writing.
    assert_eq!(process_packet(&d, &mut fifo, 0, &track_frames(201, 100)), PacketOutcome::Interrupted);
    // ... the runtime repositions the demuxer and flushes, then:
    let resume = e.seek_finish(&mut d, &mut c, 30_000_000, was_playing);
    assert!(resume);
    assert!(!d.cancel_requested);
    let cmd = cmd_rx.try_recv().unwrap();
    assert!(cmd == CMD::Resume);

    // The first progress after the seek reads the target.
    assert_eq!(e.get_progress(&c), Ok(30_000_000));

    // The worker refills from the new position and playback resumes cleanly.
    process_packet(&d, &mut fifo, 0, &track_frames(3001, 600));
    assert!(e.preroll_complete(&fifo, &c));
    assert_eq!(e.play(&fifo, &c), Ok(()));
    assert_eq!(e.state, PlayerState::PLAYING);
    let (out, o) = render(&mut fifo, &mut c, RATE, 100, &sig_tx);
    assert_eq!(o.frames_read, 100);
    assert_eq!(out[0], (3001, -3001));
}

#[test]
fn s4_seek_while_paused_stays_paused() {
    let (cmd_tx, cmd_rx) = crossbeam_channel::unbounded::<CMD>();
    let (sig_tx, _sig_rx) = crossbeam_channel::unbounded::<EngineSignal>();
    let mut e = AudioEngine::new(RATE, 2, ResamplingQuality::High, cmd_tx);
    let mut fifo = AudioFifo::new(1000);
    let mut c = SharedCounters::new();
    let mut d = fresh_decoder();

    e.load("t1.flac", &mut fifo, &mut c).unwrap();
    cmd_rx.try_recv().unwrap();
    initialise_track(&mut e, &mut c, &mut d, 0, RATE, Some(60_000_000));

    // Seek before play: nothing starts spuriously.
    let was_playing = e.seek_begin(&mut d, &mut fifo);
    assert!(!was_playing);
    let resume = e.seek_finish(&mut d, &mut c, 10_000_000, was_playing);
    assert!(!resume);
    assert!(!e.device_started);
    assert_eq!(e.get_progress(&c), Ok(10_000_000));

    // The worker resumes decoding at the ten-second mark.
    assert!(cmd_rx.try_recv().unwrap() == CMD::Resume);
    process_packet(&d, &mut fifo, 0, &track_frames(1001, 600));
    assert!(!e.device_started);

    // Only an explicit play starts the device, and the first frames served
    // are the ones decoded at the seek target.
    assert!(e.preroll_complete(&fifo, &c));
    e.play(&fifo, &c).unwrap();
    let (out, _) = render(&mut fifo, &mut c, RATE, 100, &sig_tx);
    assert_eq!(out[0], (1001, -1001));
}

#[test]
fn s5_back_to_back_load_cuts_the_first_track() {
    let (cmd_tx, cmd_rx) = crossbeam_channel::unbounded::<CMD>();
    let (sig_tx, sig_rx) = crossbeam_channel::unbounded::<EngineSignal>();
    let mut e = AudioEngine::new(RATE, 2, ResamplingQuality::High, cmd_tx);
    let mut fifo = AudioFifo::new(1000);
    let mut c = SharedCounters::new();
    let mut d = fresh_decoder();

    e.load("a", &mut fifo, &mut c).unwrap();
    assert!(cmd_rx.try_recv().unwrap() == CMD::Start("a".to_string(), ResamplingQuality::High));
    initialise_track(&mut e, &mut c, &mut d, 0, RATE, Some(60_000_000));
    process_packet(&d, &mut fifo, 0, &track_frames(1, 600));
    e.play(&fifo, &c).unwrap();
    render(&mut fifo, &mut c, RATE, 100, &sig_tx);

    // Loading "b" cuts "a": device stopped, buffer dropped, position reset,
    // and no MediaEnd from the unfinished track.
    e.load("b", &mut fifo, &mut c).unwrap();
    assert!(cmd_rx.try_recv().unwrap() == CMD::Start("b".to_string(), ResamplingQuality::High));
    assert_eq!(e.state, PlayerState::EMPTY);
    assert!(!e.device_started);
    assert_eq!(fifo.size(), 0);
    assert_eq!(e.get_progress(&c), Ok(0));
    assert!(sig_rx.try_recv().is_err());

    // "b" then plays cleanly.
    initialise_track(&mut e, &mut c, &mut d, 0, RATE, Some(60_000_000));
    process_packet(&d, &mut fifo, 0, &track_frames(9001, 600));
    e.play(&fifo, &c).unwrap();
    let (out, o) = render(&mut fifo, &mut c, RATE, 100, &sig_tx);
    assert_eq!(o.frames_read, 100);
    assert_eq!(out[0], (9001, -9001));
}

#[test]
fn s6_gapless_queue_delivers_media_end_once_per_track() {
    let (cmd_tx, cmd_rx) = crossbeam_channel::unbounded::<CMD>();
    let (sig_tx, sig_rx) = crossbeam_channel::unbounded::<EngineSignal>();
    let mut e = AudioEngine::new(RATE, 2, ResamplingQuality::High, cmd_tx);
    let mut fifo = AudioFifo::new(1000);
    let mut c = SharedCounters::new();
    let mut d = fresh_decoder();

    let mut media_ends = 0;
    let tracks = ["t1.flac", "t2.flac"];
    let mut next_track = 0;

    // The user callback's behaviour on MediaEnd: load the next track and play.
    e.load(tracks[next_track], &mut fifo, &mut c).unwrap();
    next_track += 1;
    loop {
        // The worker handles the queued Start and decodes one second.
        let cmd = cmd_rx.try_recv().unwrap();
        assert!(matches!(cmd, CMD::Start(_, _)));
        initialise_track(&mut e, &mut c, &mut d, 0, RATE, Some(1_000_000));
        process_packet(&d, &mut fifo, 0, &track_frames(1, 100));
        set_decoder_eof(&mut c, true);
        e.play(&fifo, &c).unwrap();

        // The device drains the track; the listener reacts to each signal.
        let mut got_end = false;
        for _ in 0..3 {
            let (_, o) = render(&mut fifo, &mut c, RATE, 100, &sig_tx);
            if o.media_end {
                assert_eq!(sig_rx.try_recv(), Ok(EngineSignal::MediaEnd));
                assert_eq!(
                    handle_signal(&mut e, &mut fifo, &mut c, EngineSignal::MediaEnd),
                    ListenerAction::InvokeCallback
                );
                media_ends += 1;
                got_end = true;
                break;
            }
        }
        assert!(got_end);

        // The user callback queues the next track, if one is left.
        if next_track < tracks.len() {
            e.load(tracks[next_track], &mut fifo, &mut c).unwrap();
            next_track += 1;
        } else {
            break;
        }
    }
    assert_eq!(media_ends, 2);
    assert!(sig_rx.try_recv().is_err());
    assert_eq!(e.state, PlayerState::EMPTY);
}
