use std::hash::{Hash, Hasher};
use clash_verge::tray_icon::{
    bundled_icon_file, choose_icon_source, decide_icon_draw, IconDraw, choose_rate, custom_icon_stem, icon_digest, icon_kind,
    plan_tray_icon, render_mode, BundledIcon, IconCache, IconKind, IconSource, Rate, RateCache,
    RenderMode,
};
use clash_verge::traffic::{
    traffic_start, traffic_step, TrafficAction, TrafficEvent, TrafficPhase, TrafficSubscription,
};
use clash_verge::verge::IVerge;

#[test]
fn icon_kind_prefers_tun() {
    assert_eq!(icon_kind(false, false), IconKind::Common);
    assert_eq!(icon_kind(true, false), IconKind::SystemProxy);
    assert_eq!(icon_kind(false, true), IconKind::Tun);
    assert_eq!(icon_kind(true, true), IconKind::Tun);
}

#[test]
fn icon_file_names() {
    assert_eq!(custom_icon_stem(IconKind::Common), "common");
    assert_eq!(custom_icon_stem(IconKind::SystemProxy), "sysproxy");
    assert_eq!(custom_icon_stem(IconKind::Tun), "tun");
    assert_eq!(bundled_icon_file(BundledIcon { kind: IconKind::Common, colorful: true }), "tray-icon.ico");
    assert_eq!(bundled_icon_file(BundledIcon { kind: IconKind::SystemProxy, colorful: false }), "tray-icon-sys-mono.ico");
    assert_eq!(bundled_icon_file(BundledIcon { kind: IconKind::Tun, colorful: true }), "tray-icon-tun.ico");
}

#[test]
fn icon_plan_follows_settings() {
    let verge = IVerge {
        enable_system_proxy: Some(true),
        sysproxy_tray_icon: Some(true),
        tray_icon: Some("colorful".to_string()),
        ..IVerge::default()
    };
    let plan = plan_tray_icon(&verge, true);
    assert_eq!(plan.kind, IconKind::SystemProxy);
    assert!(plan.custom);
    assert!(plan.bundled.colorful);
    assert!(!plan.template);

    let plain = plan_tray_icon(&IVerge::default(), true);
    assert_eq!(plain.kind, IconKind::Common);
    assert!(!plain.custom);
    assert!(!plain.bundled.colorful);
    assert!(plain.template);
    assert!(plan_tray_icon(&IVerge::default(), false).bundled.colorful);
}

#[test]
fn icon_source_prefers_ico_then_png() {
    let verge = IVerge { enable_tun_mode: Some(true), tun_tray_icon: Some(true), ..IVerge::default() };
    let plan = plan_tray_icon(&verge, false);
    assert_eq!(choose_icon_source(plan, true, true), IconSource::CustomIco(IconKind::Tun));
    assert_eq!(choose_icon_source(plan, false, true), IconSource::CustomPng(IconKind::Tun));
    assert_eq!(choose_icon_source(plan, false, false), IconSource::Bundled(plan.bundled));
    let off = plan_tray_icon(&IVerge { enable_tun_mode: Some(true), ..IVerge::default() }, false);
    assert_eq!(choose_icon_source(off, true, true), IconSource::Bundled(off.bundled));
}

#[test]
fn render_mode_shows_speed_only_when_enabled() {
    assert_eq!(render_mode(&IVerge::default()), RenderMode::Speed { with_icon: true });
    assert_eq!(render_mode(&IVerge { enable_tray_speed: Some(false), ..IVerge::default() }), RenderMode::Plain);
    assert_eq!(render_mode(&IVerge { enable_tray_icon: Some(false), ..IVerge::default() }), RenderMode::Speed { with_icon: false });
}

#[test]
fn rate_choice_order() {
    assert_eq!(choose_rate(Some(1), Some(2), 0), 1);
    assert_eq!(choose_rate(None, Some(2), 0), 2);
    assert_eq!(choose_rate::<i32>(None, None, 0), 0);
}

#[test]
fn icon_cache_keeps_bytes_until_digest_changes() {
    let mut cache = IconCache::new();
    assert_eq!(cache.cached_bytes(), None);
    assert!(cache.refresh(vec![1, 2]));
    assert!(!cache.refresh(vec![1, 2]));
    assert_eq!(cache.cached_bytes(), Some(&vec![1, 2]));
    assert!(cache.refresh(vec![3]));
    assert_eq!(cache.cached_bytes(), Some(&vec![3]));
}

#[test]
fn icon_digest_is_the_default_hash_of_the_vec() {
    let bytes = vec![0u8, 1, 2, 250];
    let mut hasher = std::collections::hash_map::DefaultHasher::new();
    bytes.hash(&mut hasher);
    assert_eq!(icon_digest(&bytes), hasher.finish());
    let mut by_writes = std::collections::hash_map::DefaultHasher::new();
    by_writes.write(&(bytes.len() as u64).to_le_bytes());
    by_writes.write(&bytes);
    assert_eq!(icon_digest(&bytes), by_writes.finish());
    assert_eq!(icon_digest(&bytes), icon_digest(&bytes.clone()));
    assert_ne!(icon_digest(&vec![1]), icon_digest(&vec![2]));
}

#[test]
fn rate_cache_asks_for_redraw_on_change_only() {
    let mut cache = RateCache::new();
    assert_eq!(cache.last_rate(), None);
    let r = Rate { up: 10, down: 20 };
    assert!(cache.refresh(r));
    assert!(!cache.refresh(r));
    assert_eq!(cache.last_rate(), Some(r));
    assert!(cache.refresh(Rate { up: 10, down: 21 }));
    assert!(cache.refresh(Rate::default()));
}

#[test]
fn subscription_hands_back_previous_sender() {
    let mut sub: TrafficSubscription<u8> = TrafficSubscription::new();
    assert!(!sub.is_subscribed());
    assert_eq!(sub.subscribe_traffic(1), None);
    assert!(sub.is_subscribed());
    assert_eq!(sub.subscribe_traffic(2), Some(1));
    assert_eq!(sub.unsubscribe_traffic(), Some(2));
    assert!(!sub.is_subscribed());
    assert_eq!(sub.unsubscribe_traffic(), None);
}

#[test]
fn traffic_task_steps() {
    let (p, a) = traffic_start();
    assert_eq!((p, a), (TrafficPhase::Connecting, TrafficAction::Connect));
    assert_eq!(traffic_step(p, TrafficEvent::ConnectFailed), (TrafficPhase::Retrying, TrafficAction::WaitOneSecond));
    assert_eq!(traffic_step(TrafficPhase::Retrying, TrafficEvent::RetryDelayElapsed { still_subscribed: true }), (TrafficPhase::Connecting, TrafficAction::Connect));
    assert_eq!(traffic_step(TrafficPhase::Retrying, TrafficEvent::RetryDelayElapsed { still_subscribed: false }), (TrafficPhase::Stopped, TrafficAction::Stop));
    assert_eq!(traffic_step(p, TrafficEvent::Connected), (TrafficPhase::Streaming, TrafficAction::AwaitNext));
    let sample = TrafficEvent::Sample { readable: true, speed_enabled: true, meter_present: true };
    assert_eq!(traffic_step(TrafficPhase::Streaming, sample), (TrafficPhase::Streaming, TrafficAction::FeedMeter));
    let hidden = TrafficEvent::Sample { readable: true, speed_enabled: false, meter_present: true };
    assert_eq!(traffic_step(TrafficPhase::Streaming, hidden), (TrafficPhase::Streaming, TrafficAction::AwaitNext));
    assert_eq!(traffic_step(TrafficPhase::Streaming, TrafficEvent::RateMeasured { changed: true }), (TrafficPhase::Streaming, TrafficAction::RedrawIcon));
    assert_eq!(traffic_step(TrafficPhase::Streaming, TrafficEvent::RateMeasured { changed: false }), (TrafficPhase::Streaming, TrafficAction::AwaitNext));
    assert_eq!(traffic_step(TrafficPhase::Streaming, TrafficEvent::StreamEnded), (TrafficPhase::Draining, TrafficAction::AwaitShutdown));
    assert_eq!(traffic_step(TrafficPhase::Draining, sample), (TrafficPhase::Draining, TrafficAction::AwaitShutdown));
    assert_eq!(traffic_step(TrafficPhase::Draining, TrafficEvent::ShutdownSignal), (TrafficPhase::Stopped, TrafficAction::Stop));
    assert_eq!(traffic_step(TrafficPhase::Stopped, TrafficEvent::Connected), (TrafficPhase::Stopped, TrafficAction::Stop));
}

#[test]
fn verge_defaults() {
    let v = IVerge::default();
    assert!(!v.system_proxy_enabled());
    assert!(!v.tun_mode_enabled());
    assert!(v.tray_speed_enabled());
    assert!(v.tray_icon_enabled());
    assert!(!v.colorful_icon());
    assert!(!v.common_icon_custom());
    assert!(IVerge { tray_icon: Some("colorful".to_string()), ..IVerge::default() }.colorful_icon());
}

#[test]
fn changed_icon_is_redrawn_with_same_rate() {
    let speed = RenderMode::Speed { with_icon: true };
    assert_eq!(decide_icon_draw(speed, true, false), IconDraw::Speed { with_icon: true });
    assert_eq!(decide_icon_draw(speed, false, true), IconDraw::Speed { with_icon: true });
    assert_eq!(decide_icon_draw(speed, false, false), IconDraw::Keep);
    assert_eq!(decide_icon_draw(RenderMode::Speed { with_icon: false }, true, true), IconDraw::Speed { with_icon: false });
    assert_eq!(decide_icon_draw(RenderMode::Plain, false, false), IconDraw::Plain);
}
