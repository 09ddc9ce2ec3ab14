use smart_compass::idle::{Config, IdleLoop, IdleStep};

#[test]
fn default_config_holds_the_documented_values() {
    let config = Config::default();
    assert_eq!(config.trigger_interval_ms, 500);
    assert_eq!(config.brightness, 128);
    assert_eq!(config.frames_per_second, 30);
    assert_eq!(config.blink_hold_ms, 200);
}

#[test]
fn the_status_led_alternates_every_pass() {
    let mut idle = IdleLoop::new(&Config::default());
    let first = idle.step(0);
    assert_eq!(first, IdleStep { led_high: true, periodic_due: false, hold_ms: 200 });
    let second = idle.step(200);
    assert_eq!(second, IdleStep { led_high: false, periodic_due: false, hold_ms: 200 });
    let third = idle.step(400);
    assert_eq!(third, IdleStep { led_high: true, periodic_due: false, hold_ms: 200 });
}

#[test]
fn the_periodic_work_is_due_once_per_interval() {
    let mut idle = IdleLoop::new(&Config::default());
    let mut due_at: Vec<u32> = Vec::new();
    let mut now: u32 = 0;
    while now <= 2000 {
        if idle.step(now).periodic_due {
            due_at.push(now);
        }
        now += 200;
    }
    assert_eq!(due_at, vec![600, 1200, 1800]);
}

#[test]
fn the_loop_follows_its_configuration() {
    let config = Config { trigger_interval_ms: 50, brightness: 10, frames_per_second: 60, blink_hold_ms: 25 };
    let mut idle = IdleLoop::new(&config);
    assert_eq!(idle.step(49), IdleStep { led_high: true, periodic_due: false, hold_ms: 25 });
    assert_eq!(idle.step(50), IdleStep { led_high: false, periodic_due: true, hold_ms: 25 });
    assert_eq!(idle.step(99), IdleStep { led_high: true, periodic_due: false, hold_ms: 25 });
    assert_eq!(idle.step(100), IdleStep { led_high: false, periodic_due: true, hold_ms: 25 });
}
