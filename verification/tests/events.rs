use xenvox::cursor::Cursor;
use xenvox::dispatch::{note_off, note_on, NoteMessage};
use xenvox::geom::ScreenSize;
use xenvox::model::{Effect, InputEvent, Model};

#[test]
fn press_builds_note_on_with_fixed_channel_and_velocity() {
    let msg = note_on(&Cursor { pos: 0 }, 960);
    match msg {
        NoteMessage::NoteOn { channel, pitch, velocity } => {
            assert_eq!(channel, 1);
            assert_eq!(pitch.num as f32 / pitch.den as f32, 0.0);
            assert_eq!(velocity.num as f32 / velocity.den as f32, 0.5);
        }
        NoteMessage::NoteOff { .. } => panic!("press must build a note-on"),
    }
}

#[test]
fn release_builds_note_off_regardless_of_cursor() {
    let msg = note_off();
    assert_eq!(msg, NoteMessage::NoteOff { channel: 1 });
}

#[test]
fn default_model_matches_startup_state() {
    let m = Model::new();
    assert_eq!(m.tree.layers_count(), 9);
    assert_eq!(m.tree.layer_len(8), 256);
    assert_eq!(m.grid.edos, vec![12, 31, 53]);
    assert_eq!(m.cursor.pos, 0);
    assert_eq!(m.screen, ScreenSize { w: 960, h: 600 });
}

#[test]
fn resize_updates_only_the_screen_size() {
    let mut m = Model::new();
    m.update(InputEvent::CursorMoved(123));
    let layers_before = m.tree.layers_count();
    let sample_before = m.tree.leaf_at(8, 200);
    let step = m.update(InputEvent::Resized(800, 500));
    assert_eq!(m.screen, ScreenSize { w: 800, h: 500 });
    assert_eq!(m.cursor.pos, 123);
    assert_eq!(m.grid.edos, vec![12, 31, 53]);
    assert_eq!(m.tree.layers_count(), layers_before);
    assert_eq!(m.tree.leaf_at(8, 200), sample_before);
    assert_eq!(step.effects, vec![Effect::NotifyResize(ScreenSize { w: 800, h: 500 })]);
    assert!(step.redraw);
    assert!(step.running);
}

#[test]
fn ignored_events_only_request_redraw() {
    let mut m = Model::new();
    let step = m.update(InputEvent::Other);
    assert!(step.effects.is_empty());
    assert!(step.redraw);
    assert!(step.running);
    assert_eq!(m.cursor.pos, 0);
    assert_eq!(m.screen, ScreenSize { w: 960, h: 600 });
}

#[test]
fn close_stops_the_loop() {
    let mut m = Model::new();
    let step = m.update(InputEvent::Closed);
    assert!(!step.running);
    assert!(step.effects.is_empty());
}

#[test]
fn press_release_round_trip_emits_one_datagram_each() {
    let mut m = Model::new();

    let step = m.update(InputEvent::CursorMoved(480));
    assert!(step.effects.is_empty());
    assert!(step.redraw);

    let step = m.update(InputEvent::PointerPress);
    assert_eq!(step.effects.len(), 1);
    match step.effects[0] {
        Effect::SendNote(NoteMessage::NoteOn { channel, pitch, velocity }) => {
            assert_eq!(channel, 1);
            assert_eq!(pitch.num as f32 / pitch.den as f32, 6.0);
            assert_eq!(velocity.num as f32 / velocity.den as f32, 0.5);
        }
        _ => panic!("press must emit exactly one note-on"),
    }

    let step = m.update(InputEvent::PointerRelease);
    assert_eq!(step.effects.len(), 1);
    assert_eq!(step.effects[0], Effect::SendNote(NoteMessage::NoteOff { channel: 1 }));
}
