use powerflow::history::{DeviceType, AUTO_SAVE_MIN_POINTS, MAX_CHART_POINTS};
use powerflow::provider::{NormalizedData, NormalizedResource};
use powerflow::recorder::HistoryRecorder;

fn sample(value: i64) -> NormalizedResource {
    NormalizedResource {
        last_update: value,
        data: NormalizedData {
            battery_level: (value % 100) as i32,
            system_load: (value as f32).to_bits(),
            ..Default::default()
        },
        ..Default::default()
    }
}

#[test]
fn chart_disabled_stops_sampling_without_discarding_existing_session() {
    let mut recorder = HistoryRecorder::new(true, false);
    recorder.record(DeviceType::Local, sample(1));
    recorder.record(DeviceType::Local, sample(1));
    recorder.record(DeviceType::Local, sample(1)).unwrap();
    let session_id = recorder.current_chart(&DeviceType::Local).session_id;

    recorder.set_chart_enabled(false);
    assert!(recorder.record(DeviceType::Local, sample(2)).is_none());
    let chart = recorder.current_chart(&DeviceType::Local);
    assert_eq!(chart.session_id, session_id);
    assert_eq!(chart.points.len(), 1);
}

#[test]
fn current_chart_is_a_one_hundred_point_ring() {
    let mut recorder = HistoryRecorder::new(true, false);
    for value in 1..=(MAX_CHART_POINTS as i64 + 7) {
        for _ in 0..3 {
            recorder.record(DeviceType::Local, sample(value));
        }
    }

    let chart = recorder.current_chart(&DeviceType::Local);
    assert_eq!(chart.points.len(), MAX_CHART_POINTS);
    assert_eq!(chart.points.first().unwrap().data.last_update, 8);
    assert_eq!(
        chart.points.last().unwrap().data.last_update,
        MAX_CHART_POINTS as i64 + 7
    );
}

#[test]
fn local_chart_accepts_only_every_third_tick() {
    let mut recorder = HistoryRecorder::new(true, false);
    assert!(recorder.record(DeviceType::Local, sample(1)).is_none());
    assert!(recorder.record(DeviceType::Local, sample(2)).is_none());
    assert!(recorder.record(DeviceType::Local, sample(3)).is_some());
    assert_eq!(recorder.current_chart(&DeviceType::Local).points.len(), 1);
}

#[test]
fn remote_chart_deduplicates_repeated_sensor_updates() {
    let mut recorder = HistoryRecorder::new(true, false);
    let remote = DeviceType::Remote("phone".to_string());
    assert!(recorder.record(remote.clone(), sample(7)).is_some());
    assert!(recorder.record(remote.clone(), sample(7)).is_none());
    assert!(recorder.record(remote.clone(), sample(8)).is_some());
    assert_eq!(recorder.current_chart(&remote).points.len(), 2);
}

#[test]
fn close_auto_save_requires_thirty_visible_points() {
    let mut recorder = HistoryRecorder::new(true, true);
    for value in 1..AUTO_SAVE_MIN_POINTS {
        for _ in 0..3 {
            recorder.record(DeviceType::Local, sample(value as i64));
        }
    }
    assert!(recorder.close_save_devices().is_empty());
    for _ in 0..3 {
        recorder.record(DeviceType::Local, sample(AUTO_SAVE_MIN_POINTS as i64));
    }
    assert_eq!(recorder.close_save_devices(), vec![DeviceType::Local]);

    recorder.set_auto_save(false);
    assert!(recorder.close_save_devices().is_empty());
    recorder.set_auto_save(true);
    recorder.set_chart_enabled(false);
    assert!(recorder.close_save_devices().is_empty());
}

#[test]
fn clearing_only_replaces_the_selected_device_session() {
    let mut recorder = HistoryRecorder::new(true, false);
    let remote = DeviceType::Remote("phone".to_string());
    for _ in 0..3 {
        recorder.record(DeviceType::Local, sample(1));
    }
    recorder.record(remote.clone(), sample(2));
    let old_local = recorder.current_chart(&DeviceType::Local).session_id;
    let old_remote = recorder.current_chart(&remote).session_id;

    let cleared = recorder.clear_current(&DeviceType::Local);
    assert_ne!(cleared.session_id, old_local);
    assert!(cleared.points.is_empty());
    assert_eq!(recorder.current_chart(&remote).session_id, old_remote);
    assert_eq!(recorder.current_chart(&remote).points.len(), 1);
}

#[test]
fn deleting_all_history_discards_every_cached_chart_session() {
    let mut recorder = HistoryRecorder::new(true, true);
    let remote = DeviceType::Remote("phone".to_string());
    for value in 1..=3 {
        recorder.record(DeviceType::Local, sample(value));
    }
    recorder.record(remote.clone(), sample(10));

    let resets = recorder.clear_all();
    assert_eq!(resets.len(), 2);
    assert!(resets.iter().all(|chart| chart.points.is_empty()));
    assert!(recorder.current_chart(&DeviceType::Local).points.is_empty());
    assert!(recorder.current_chart(&remote).points.is_empty());
    assert!(recorder.close_save_devices().is_empty());
}

#[test]
fn deleting_active_saved_row_rebases_session_without_losing_visible_points() {
    let mut recorder = HistoryRecorder::new(true, false);
    for value in 1..=3 {
        recorder.record(DeviceType::Local, sample(value));
    }
    let before = recorder.current_chart(&DeviceType::Local);
    assert_eq!(before.points.len(), 1);
    recorder.mark_saved(&DeviceType::Local, 42);

    assert!(recorder.rebase_deleted_history(7).is_empty());
    assert_eq!(
        recorder.current_chart(&DeviceType::Local).session_id,
        before.session_id
    );

    let rebased = recorder.rebase_deleted_history(42);
    assert_eq!(rebased.len(), 1);
    assert_ne!(rebased[0].session_id, before.session_id);
    assert_eq!(rebased[0].points.len(), before.points.len());
    assert_eq!(rebased[0].points[0].sequence, before.points[0].sequence);
    assert_eq!(recorder.saved_history_id(&DeviceType::Local), None);
}
