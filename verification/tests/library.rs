use powerflow::database::{
    cleanup_warning, finish_history_cleanup, join_strings, run_wal_checkpoint,
    DeleteAllHistoryResult, HistoryPurgeResult,
};
use powerflow::history::{
    auto_save_outcome, device_save_error, div_euclid_1000, nanos_to_millis, new_session_id,
    saturating_sub, DeviceType, HistoryCurvePoint, HistorySummaryData,
};
use powerflow::ioreg::{
    adapter_name, get_mac_ioreg, get_mac_ioreg_dict, AdapterDetails, IORegistry, IoregError,
    PowerTelemetryData,
};
use powerflow::local::{
    interval_too_small, sample_interval_millis, sampler_step, status_bar_source, SampleInterval, SamplerAction,
    SamplerEvent, SamplerState, StatusBarItem, StatusBarSource, DEFAULT_SAMPLE_INTERVAL_MILLIS, DEFAULT_SHOW_CHARGING,
};
use powerflow::provider::{NormalizedData, NormalizedResource, PowerStatistic};
use powerflow::recorder::{HistoryRecorder, DEFAULT_AUTO_SAVE, DEFAULT_CHART_ENABLED};
use powerflow::text::{push_dec, push_hex, push_signed_dec, trim_white_space};

fn hex(n: u128) -> String {
    let mut s = String::new();
    push_hex(&mut s, n);
    s
}

#[test]
fn hex_text_matches_lowercase_hex_formatting() {
    for n in [0u128, 9, 10, 15, 16, 255, 4096, 0xdead_beef, u128::MAX] {
        assert_eq!(hex(n), format!("{n:x}"));
    }
}

#[test]
fn decimal_text_matches_display_formatting() {
    for v in [0i64, 7, -7, 10, -10, 1234567, i64::MAX, i64::MIN] {
        let mut s = String::new();
        push_signed_dec(&mut s, v);
        assert_eq!(s, v.to_string());
    }
    let mut s = String::from("x");
    push_dec(&mut s, 90);
    assert_eq!(s, "x90");
}

#[test]
fn trim_removes_unicode_white_space_like_str_trim() {
    for text in ["  local \t", "\u{3000}phone\u{a0}", "", " \n ", "a b", "\u{2028}x\u{200a}"] {
        assert_eq!(trim_white_space(text), text.trim());
    }
}

#[test]
fn session_id_joins_time_and_counter_in_hex() {
    assert_eq!(new_session_id(0x1a2b, 255), "1a2b-ff");
    assert_eq!(new_session_id(0, 1), "0-1");
    // The same clock reading with different counters gives different ids.
    assert_ne!(new_session_id(0x1a2b, 1), new_session_id(0x1a2b, 2));
    assert_ne!(new_session_id(0x1, 0x12), new_session_id(0x11, 0x2));
}

#[test]
fn millis_saturate_at_i64_max() {
    assert_eq!(nanos_to_millis(5_400_000_000), 5_400);
    assert_eq!(nanos_to_millis(999_999), 0);
    assert_eq!(nanos_to_millis(u128::MAX), i64::MAX);
}

#[test]
fn device_ids_parse_like_the_frontend_sends_them() {
    assert_eq!(DeviceType::from_device_id(" local ".to_string()), Ok(DeviceType::Local));
    assert_eq!(
        DeviceType::from_device_id("\tphone\n".to_string()),
        Ok(DeviceType::Remote("phone".to_string()))
    );
    assert_eq!(
        DeviceType::from_device_id("   ".to_string()),
        Err("deviceId cannot be empty".to_string())
    );
    assert_eq!(DeviceType::Local.device_id(), "local");
    assert_eq!(DeviceType::Remote("udid-1".to_string()).device_id(), "udid-1");
    let id = DeviceType::Remote("udid-1".to_string());
    assert_eq!(DeviceType::from_device_id(id.device_id().to_string()), Ok(id));
}

#[test]
fn division_by_a_thousand_rounds_down() {
    for x in [0i64, 999, 1000, 1999, -1, -999, -1000, -1001, i64::MIN, i64::MAX] {
        assert_eq!(div_euclid_1000(x), x.div_euclid(1000));
    }
    assert_eq!(saturating_sub(i64::MIN, 1), i64::MIN);
    assert_eq!(saturating_sub(i64::MAX, -1), i64::MAX);
    assert_eq!(saturating_sub(5, 7), -2);
}

#[test]
fn cleanup_succeeds_only_when_every_step_succeeds() {
    assert_eq!(finish_history_cleanup(Ok(()), Ok(()), Ok(())), Ok(()));
    assert_eq!(
        finish_history_cleanup(Err("busy".into()), Ok(()), Err("locked".into())),
        Err("WAL checkpoint before VACUUM failed: busy; WAL checkpoint after VACUUM failed: locked"
            .to_string())
    );
    assert_eq!(
        finish_history_cleanup(Ok(()), Err("disk".into()), Ok(())),
        Err("VACUUM failed: disk".to_string())
    );
    assert_eq!(
        finish_history_cleanup(Err("a".into()), Err("b".into()), Err("c".into())),
        Err("WAL checkpoint before VACUUM failed: a; VACUUM failed: b; WAL checkpoint after VACUUM failed: c"
            .to_string())
    );
}

#[test]
fn busy_checkpoint_is_a_failure() {
    assert_eq!(run_wal_checkpoint((0, 5, 5)), Ok(()));
    assert_eq!(
        run_wal_checkpoint((1, -1, 12)),
        Err("checkpoint remained busy: (1, -1, 12)".to_string())
    );
}

#[test]
fn delete_all_reports_cleanup_separately_from_deletion() {
    let ok = DeleteAllHistoryResult::from_purge(HistoryPurgeResult::after_delete(3, Ok(())));
    assert_eq!(ok.deleted_count, 3);
    assert!(ok.cleanup_complete);
    assert_eq!(ok.cleanup_error, None);
    let failed =
        DeleteAllHistoryResult::from_purge(HistoryPurgeResult::after_delete(4, Err("VACUUM failed: x".into())));
    assert_eq!(failed.deleted_count, 4);
    assert!(!failed.cleanup_complete);
    assert_eq!(failed.cleanup_error.as_deref(), Some("VACUUM failed: x"));
    assert_eq!(
        cleanup_warning("VACUUM failed: x"),
        "history was deleted, but secure disk cleanup did not complete: VACUUM failed: x"
    );
}

#[test]
fn auto_save_failures_are_listed_per_device() {
    assert_eq!(auto_save_outcome(&vec![]), Ok(()));
    let errors = vec![
        device_save_error(&DeviceType::Local, "the current chart has no points"),
        device_save_error(&DeviceType::Remote("phone".into()), "disk full"),
    ];
    assert_eq!(
        auto_save_outcome(&errors),
        Err("local: the current chart has no points; phone: disk full".to_string())
    );
    assert_eq!(join_strings(&vec!["a".to_string()], ", "), "a");
}

#[test]
fn registry_lookup_errors_name_the_failed_step() {
    assert_eq!(get_mac_ioreg_dict(0, 0, true), Err(IoregError::ServiceNotFound));
    assert_eq!(get_mac_ioreg_dict(7, -536870212, true), Err(IoregError::PropertiesFailed(-536870212)));
    assert_eq!(get_mac_ioreg_dict(7, 0, false), Err(IoregError::NoProperties));
    assert_eq!(get_mac_ioreg_dict(7, 0, true), Ok(()));
    assert_eq!(
        IoregError::PropertiesFailed(-3).message(),
        "could not get AppleSmartBattery properties (status=-3)"
    );
    assert_eq!(IoregError::ServiceNotFound.message(), "AppleSmartBattery service not found");
    assert_eq!(IoregError::NoProperties.message(), "AppleSmartBattery returned no properties");
    let parsed = get_mac_ioreg(Ok(()), Ok(IORegistry { cycle_count: Some(5), ..Default::default() }));
    assert_eq!(parsed.unwrap().cycle_count, Some(5));
    assert!(matches!(
        get_mac_ioreg(Err(IoregError::NoProperties), Ok(IORegistry::default())),
        Err(IoregError::NoProperties)
    ));
    assert!(matches!(get_mac_ioreg(Ok(()), Err("bad".into())), Err(IoregError::Parse(m)) if m == "bad"));
}

#[test]
fn registry_fields_fill_the_sample() {
    let io = IORegistry {
        adapter_details: AdapterDetails { description: Some("pd charger".into()), ..Default::default() },
        power_telemetry_data: Some(PowerTelemetryData { system_load: 9000, ..Default::default() }),
        apple_raw_current_capacity: Some(3500),
        apple_raw_max_capacity: Some(5000),
        current_capacity: Some(70),
        cycle_count: Some(12),
        update_time: Some(1_735_689_600),
        ..Default::default()
    };
    assert_eq!(io.ptd().unwrap().system_load, 9000);
    assert_eq!(adapter_name(&io).as_deref(), Some("pd charger"));
    let r = NormalizedResource::from_ioreg(&io, std::time::Duration::ZERO, NormalizedData::default());
    assert!(!r.is_local && !r.is_charging);
    assert_eq!(r.current_capacity, 3500);
    assert_eq!(r.max_capacity, 5000);
    assert_eq!(r.data.battery_level, 70);
    assert_eq!(r.last_update, 1_735_689_600);
    assert_eq!(r.adapter_name.as_deref(), Some("pd charger"));
}

#[test]
fn distinguishes_missing_sensor_values_from_real_zeroes() {
    let ioreg = IORegistry::default();
    let zero = std::time::Duration::ZERO;
    let missing = NormalizedResource::from_ioreg_and_sensors(&ioreg, false, false, false, zero, NormalizedData::default());
    assert_eq!(f32::from_bits(missing.data.brightness_power), 0.0);
    assert_eq!(f32::from_bits(missing.data.heatpipe_power), 0.0);
    assert!(!missing.brightness_power_available);
    assert!(!missing.heatpipe_power_available);

    let available_zeroes = NormalizedResource::from_ioreg_and_sensors(&ioreg, false, true, true, zero, NormalizedData::default());
    assert_eq!(f32::from_bits(available_zeroes.data.brightness_power), 0.0);
    assert_eq!(f32::from_bits(available_zeroes.data.heatpipe_power), 0.0);
    assert!(available_zeroes.brightness_power_available);
    assert!(available_zeroes.heatpipe_power_available);
}

#[test]
fn sensor_readings_pass_through_with_the_registry_charge_level() {
    let io = IORegistry { current_capacity: Some(64), cycle_count: Some(3), ..Default::default() };
    let readings = NormalizedData {
        brightness_power: 2.5f32.to_bits(),
        heatpipe_power: 3.5f32.to_bits(),
        system_in: 40.0f32.to_bits(),
        battery_level: 99,
        ..Default::default()
    };
    let r = NormalizedResource::from_ioreg_and_sensors(&io, true, true, false, std::time::Duration::from_secs(60), readings);
    assert!(r.is_local && r.is_charging);
    assert!(r.brightness_power_available && !r.heatpipe_power_available);
    assert_eq!(f32::from_bits(r.data.brightness_power), 2.5);
    assert_eq!(f32::from_bits(r.data.heatpipe_power), 3.5);
    assert_eq!(f32::from_bits(r.data.system_in), 40.0);
    assert_eq!(r.data.battery_level, 64);
    assert_eq!(r.cycle_count, 3);
    assert_eq!(r.time_remain, std::time::Duration::from_secs(60));
    let only = NormalizedResource::from_sensors_only(false, false, true, std::time::Duration::ZERO, readings);
    assert_eq!(only.data.battery_level, 99);
    assert_eq!(f32::from_bits(only.data.heatpipe_power), 3.5);
    assert!(only.heatpipe_power_available && !only.brightness_power_available);
    assert_eq!(only.adapter_name, None);
}

#[test]
fn status_bar_prefers_charging_power_when_asked() {
    assert_eq!(status_bar_source(true, &StatusBarItem::Screen, true), StatusBarSource::DeliveryRate);
    assert_eq!(status_bar_source(true, &StatusBarItem::Screen, false), StatusBarSource::Brightness);
    assert_eq!(status_bar_source(false, &StatusBarItem::System, true), StatusBarSource::SystemTotal);
    assert_eq!(status_bar_source(false, &StatusBarItem::Heatpipe, true), StatusBarSource::Heatpipe);
    assert!(interval_too_small(SampleInterval { secs: 0, subsec_nanos: 499_999_999 }));
    assert!(!interval_too_small(SampleInterval { secs: 0, subsec_nanos: 500_000_000 }));
    assert!(!interval_too_small(SampleInterval { secs: 1, subsec_nanos: 0 }));
}

#[test]
fn preferences_fall_back_to_their_defaults() {
    assert!(DEFAULT_CHART_ENABLED);
    assert!(!DEFAULT_AUTO_SAVE);
    assert_eq!(DEFAULT_SAMPLE_INTERVAL_MILLIS, 2000);
    assert!(DEFAULT_SHOW_CHARGING);
    assert_eq!(sample_interval_millis(None), 2000);
    assert_eq!(sample_interval_millis(Some(750)), 750);
    assert_eq!(StatusBarItem::default(), StatusBarItem::System);
    let state = SamplerState::from_preferences(None, None);
    assert_eq!(state, SamplerState { status_bar_item: StatusBarItem::System, show_charging: true });
    let state = SamplerState::from_preferences(Some(StatusBarItem::Heatpipe), Some(false));
    assert_eq!(state, SamplerState { status_bar_item: StatusBarItem::Heatpipe, show_charging: false });
}

#[test]
fn recorder_from_preferences_uses_defaults() {
    let mut recorder = HistoryRecorder::from_preferences(None, None);
    // Saving on close is off by default: nothing is picked however full.
    for _ in 0..(3 * 40) {
        recorder.record(DeviceType::Local, NormalizedResource::default());
    }
    assert_eq!(recorder.current_chart(&DeviceType::Local).points.len(), 40);
    assert!(recorder.close_save_devices().is_empty());
    let mut recorder = HistoryRecorder::from_preferences(Some(false), Some(true));
    for _ in 0..9 {
        assert!(recorder.record(DeviceType::Local, NormalizedResource::default()).is_none());
    }
    let recorder = HistoryRecorder::from_preferences(Some(true), Some(true));
    assert!(recorder.close_save_devices().is_empty());
}

#[test]
fn sampler_steps_follow_the_messages() {
    let start = SamplerState { status_bar_item: StatusBarItem::System, show_charging: true };
    assert_eq!(sampler_step(start, SamplerEvent::Tick), (start, SamplerAction::SampleAndReport));
    assert_eq!(sampler_step(start, SamplerEvent::ImmediateSend), (start, SamplerAction::SampleAndReport));
    let short = SampleInterval { secs: 0, subsec_nanos: 100_000_000 };
    let half = SampleInterval { secs: 0, subsec_nanos: 500_000_000 };
    let long = SampleInterval { secs: 3, subsec_nanos: 250 };
    assert_eq!(sampler_step(start, SamplerEvent::ChangeInterval(short)), (start, SamplerAction::RestartTimer(half)));
    assert_eq!(sampler_step(start, SamplerEvent::ChangeInterval(half)), (start, SamplerAction::RestartTimer(half)));
    assert_eq!(sampler_step(start, SamplerEvent::ChangeInterval(long)), (start, SamplerAction::RestartTimer(long)));
    let (next, action) = sampler_step(start, SamplerEvent::ChangeStatusBarItem(StatusBarItem::Screen));
    assert_eq!(next, SamplerState { status_bar_item: StatusBarItem::Screen, show_charging: true });
    assert_eq!(action, SamplerAction::ReportStatusBar);
    let (next, action) = sampler_step(next, SamplerEvent::StatusBarShowCharging(false));
    assert_eq!(next, SamplerState { status_bar_item: StatusBarItem::Screen, show_charging: false });
    assert_eq!(action, SamplerAction::ReportStatusBar);
}

#[test]
fn cleared_chart_gets_an_id_never_handed_out_before() {
    let mut recorder = HistoryRecorder::new(true, false);
    let remote = DeviceType::Remote("pad".to_string());
    let mut seen = vec![recorder.current_chart(&DeviceType::Local).session_id];
    seen.push(recorder.current_chart(&remote).session_id);
    for _ in 0..5 {
        let id = recorder.clear_current(&DeviceType::Local).session_id;
        assert!(!seen.contains(&id));
        seen.push(id);
        let id = recorder.clear_current(&remote).session_id;
        assert!(!seen.contains(&id));
        seen.push(id);
    }
    for chart in recorder.clear_all() {
        assert!(!seen.contains(&chart.session_id));
        seen.push(chart.session_id);
    }
}

#[test]
fn local_ticks_restart_after_clearing() {
    for ticks_before in 0..3 {
        let mut recorder = HistoryRecorder::new(true, false);
        for _ in 0..ticks_before {
            assert!(recorder.record(DeviceType::Local, NormalizedResource::default()).is_none());
        }
        recorder.clear_current(&DeviceType::Local);
        assert!(recorder.record(DeviceType::Local, NormalizedResource::default()).is_none());
        assert!(recorder.record(DeviceType::Local, NormalizedResource::default()).is_none());
        assert!(recorder.record(DeviceType::Local, NormalizedResource::default()).is_some());
    }
}

#[test]
fn sparkline_histories_keep_their_lengths() {
    let mut stats = PowerStatistic::default();
    for i in 0..250u64 {
        stats.record_samples(i, i + 1, i + 2);
    }
    assert_eq!(stats.battery_history.len(), 50);
    assert_eq!(stats.input_history.len(), 50);
    assert_eq!(stats.system_history.len(), 200);
    assert_eq!(stats.battery_history.front(), Some(&200));
    assert_eq!(stats.system_history.back(), Some(&251));
}

fn point_sample(level: i32, adapter: Option<&str>) -> NormalizedResource {
    NormalizedResource {
        adapter_name: adapter.map(|a| a.to_string()),
        data: NormalizedData { battery_level: level, ..Default::default() },
        ..Default::default()
    }
}

#[test]
fn snapshot_summarises_first_and_last_points() {
    let mut recorder = HistoryRecorder::new(true, false);
    let remote = DeviceType::Remote("phone".to_string());
    let avg = HistorySummaryData { system_load: 2.0f32.to_bits(), ..Default::default() };
    let peak = HistorySummaryData { system_load: 4.0f32.to_bits(), ..Default::default() };
    assert_eq!(
        recorder.snapshot(&remote, None, avg, peak).err(),
        Some("the current chart has no points".to_string())
    );
    let mut sample = point_sample(40, None);
    sample.last_update = 1;
    recorder.record(remote.clone(), sample);
    let mut sample = point_sample(45, Some("USB-C"));
    sample.last_update = 2;
    recorder.record(remote.clone(), sample);
    let chart = recorder.current_chart(&remote);
    let snap = recorder.snapshot(&remote, Some("iPhone".into()), avg, peak).unwrap();
    assert_eq!(snap.session_id, chart.session_id);
    assert_eq!(snap.point_count, 2);
    let h = &snap.history;
    assert!(h.is_remote);
    assert_eq!(h.name, "iPhone");
    assert_eq!(h.udid, "phone");
    assert_eq!(h.from_level, 40);
    assert_eq!(h.end_level, 45);
    assert_eq!(h.adapter_name, "USB-C");
    assert_eq!(h.timestamp, chart.points[0].captured_at.div_euclid(1000));
    assert_eq!(
        h.duration,
        chart.points[1].captured_at.saturating_sub(chart.points[0].captured_at).div_euclid(1000)
    );
    assert_eq!(f32::from_bits(h.detail.avg.system_load), 2.0);
    assert_eq!(f32::from_bits(h.detail.peak.system_load), 4.0);
    assert_eq!(f32::from_bits(h.detail.avg.system_in), 0.0);
    assert_eq!(h.detail.curve.len(), 2);
    assert_eq!(h.detail.curve[1].last_update, chart.points[1].captured_at.div_euclid(1000));

    recorder.set_chart_enabled(false);
    assert_eq!(
        recorder.snapshot(&remote, None, avg, peak).err(),
        Some("power usage chart is disabled".to_string())
    );
}

#[test]
fn unnamed_adapter_is_reported_as_unknown() {
    let mut recorder = HistoryRecorder::new(true, false);
    for _ in 0..3 {
        recorder.record(DeviceType::Local, point_sample(10, None));
    }
    let snap = recorder
        .snapshot(&DeviceType::Local, None, HistorySummaryData::default(), HistorySummaryData::default())
        .unwrap();
    assert_eq!(snap.history.adapter_name, "Unknown");
    assert_eq!(snap.history.name, "");
    assert!(!snap.history.is_remote);
    assert_eq!(snap.history.udid, "local");
}

#[test]
fn saved_curve_points_drop_battery_percentages() {
    let resource = NormalizedResource {
        last_update: 42,
        data: NormalizedData {
            battery_level: 42,
            absolute_battery_level: 84.0f32.to_bits(),
            system_in: 11.5f32.to_bits(),
            temperature: 31.0f32.to_bits(),
            ..Default::default()
        },
        ..Default::default()
    };
    let point = HistoryCurvePoint::from_resource(&resource);
    assert_eq!(point.last_update, 42);
    assert_eq!(f32::from_bits(point.data.system_in), 11.5);
    assert_eq!(f32::from_bits(point.data.temperature), 31.0);
    let summary = HistorySummaryData::from_data(resource.data);
    assert_eq!(f32::from_bits(summary.system_in), 11.5);
    assert_eq!(f32::from_bits(summary.temperature), 31.0);
    assert_eq!(f32::from_bits(summary.system_load), 0.0);
}

#[test]
fn every_point_gets_the_next_sequence_number() {
    let mut recorder = HistoryRecorder::new(true, false);
    let remote = DeviceType::Remote("phone".to_string());
    let a = recorder.record(remote.clone(), point_sample(1, None)).unwrap();
    let mut s = point_sample(1, None);
    s.last_update = 5;
    let b = recorder.record(remote.clone(), s).unwrap();
    assert_eq!(a.point.sequence, 1);
    assert_eq!(b.point.sequence, 2);
    assert_eq!(a.session_id, b.session_id);
    assert_eq!(a.device_id, "phone");
}

#[test]
fn clearing_everything_gives_every_device_a_new_session() {
    let mut recorder = HistoryRecorder::new(true, true);
    let remote = DeviceType::Remote("phone".to_string());
    recorder.record(remote.clone(), point_sample(1, None));
    let local_before = recorder.current_chart(&DeviceType::Local).session_id;
    let remote_before = recorder.current_chart(&remote).session_id;
    let resets = recorder.clear_all();
    assert_eq!(resets[0].device_id, "phone");
    assert_eq!(resets[1].device_id, "local");
    assert_ne!(resets[0].session_id, remote_before);
    assert_ne!(resets[1].session_id, local_before);
    assert_eq!(recorder.saved_history_id(&remote), None);
}

#[test]
fn failed_delete_all_keeps_every_chart() {
    let mut recorder = HistoryRecorder::new(true, true);
    let remote = DeviceType::Remote("phone".to_string());
    recorder.record(remote.clone(), point_sample(1, None));
    let before = recorder.current_chart(&remote).session_id;
    let (result, charts, warning) = recorder.after_delete_all(Err("database is locked".into()));
    assert_eq!(result.err(), Some("database is locked".to_string()));
    assert!(charts.is_empty());
    assert_eq!(warning, None);
    let chart = recorder.current_chart(&remote);
    assert_eq!(chart.session_id, before);
    assert_eq!(chart.points.len(), 1);
}

#[test]
fn committed_delete_all_clears_charts_even_when_cleanup_fails() {
    let mut recorder = HistoryRecorder::new(true, true);
    let remote = DeviceType::Remote("phone".to_string());
    recorder.record(remote.clone(), point_sample(1, None));
    let purge = HistoryPurgeResult::after_delete(5, Err("VACUUM failed: disk".into()));
    let (result, charts, warning) = recorder.after_delete_all(Ok(purge));
    let result = result.unwrap();
    assert_eq!(result.deleted_count, 5);
    assert!(!result.cleanup_complete);
    assert_eq!(charts.len(), 1);
    assert!(charts[0].points.is_empty());
    assert_eq!(
        warning.as_deref(),
        Some("history was deleted, but secure disk cleanup did not complete: VACUUM failed: disk")
    );
    assert!(recorder.current_chart(&remote).points.is_empty());
    let (_, _, warning) = recorder.after_delete_all(Ok(HistoryPurgeResult::after_delete(0, Ok(()))));
    assert_eq!(warning, None);
}

#[test]
fn deleting_no_row_rebases_nothing() {
    let mut recorder = HistoryRecorder::new(true, false);
    let remote = DeviceType::Remote("phone".to_string());
    recorder.record(remote.clone(), point_sample(1, None));
    recorder.mark_saved(&remote, 9);
    let before = recorder.current_chart(&remote).session_id;
    let (result, charts) = recorder.after_delete_by_id(9, Ok(0));
    assert_eq!(result, Ok(0));
    assert!(charts.is_empty());
    assert_eq!(recorder.saved_history_id(&remote), Some(9));
    let (result, charts) = recorder.after_delete_by_id(9, Err("busy".into()));
    assert_eq!(result, Err("busy".to_string()));
    assert!(charts.is_empty());
    let (result, charts) = recorder.after_delete_by_id(9, Ok(1));
    assert_eq!(result, Ok(1));
    assert_eq!(charts.len(), 1);
    assert_ne!(charts[0].session_id, before);
    assert_eq!(charts[0].points.len(), 1);
    assert_eq!(recorder.saved_history_id(&remote), None);
}

#[test]
fn only_a_written_save_records_its_row() {
    let mut recorder = HistoryRecorder::new(true, false);
    let remote = DeviceType::Remote("phone".to_string());
    recorder.record(remote.clone(), point_sample(1, None));
    let failed = recorder.after_save(&remote, "s-1".into(), 1, Err("disk full".into()));
    assert_eq!(failed.err(), Some("disk full".to_string()));
    assert_eq!(recorder.saved_history_id(&remote), None);
    let saved = recorder.after_save(&remote, "s-1".into(), 1, Ok(17)).unwrap();
    assert_eq!(saved.history_id, 17);
    assert_eq!(saved.session_id, "s-1");
    assert_eq!(saved.point_count, 1);
    assert_eq!(recorder.saved_history_id(&remote), Some(17));
    assert_eq!(recorder.current_chart(&remote).points.len(), 1);
}

#[test]
fn empty_chart_snapshot_is_refused() {
    let mut recorder = HistoryRecorder::new(true, false);
    recorder.clear_current(&DeviceType::Local);
    assert_eq!(
        recorder
            .snapshot(&DeviceType::Local, None, HistorySummaryData::default(), HistorySummaryData::default())
            .err(),
        Some("the current chart has no points".to_string())
    );
}
