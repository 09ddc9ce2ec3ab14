use smart_compass::contexts::{
    may_touch, owner_of, partition, preempts, Context, Resource, Scheduler,
};

#[test]
fn the_timer_belongs_to_the_interrupt_and_the_rest_to_the_main_loop() {
    assert_eq!(owner_of(Resource::Timer), Context::Interrupt);
    assert_eq!(owner_of(Resource::StatusLed), Context::Idle);
    assert_eq!(owner_of(Resource::LedStrip), Context::Idle);
    assert_eq!(owner_of(Resource::Radio), Context::Idle);
}

#[test]
fn each_resource_may_be_touched_from_one_context_only() {
    let resources = [Resource::Timer, Resource::StatusLed, Resource::LedStrip, Resource::Radio];
    for resource in resources {
        let from_interrupt = may_touch(Context::Interrupt, resource);
        let from_idle = may_touch(Context::Idle, resource);
        assert_ne!(from_interrupt, from_idle);
    }
    assert!(may_touch(Context::Interrupt, Resource::Timer));
    assert!(!may_touch(Context::Interrupt, Resource::Radio));
    assert!(may_touch(Context::Idle, Resource::Radio));
    assert!(!may_touch(Context::Idle, Resource::Timer));
}

#[test]
fn only_the_interrupt_preempts_and_only_the_main_loop() {
    assert!(preempts(Context::Interrupt, Context::Idle));
    assert!(!preempts(Context::Idle, Context::Interrupt));
    assert!(!preempts(Context::Interrupt, Context::Interrupt));
    assert!(!preempts(Context::Idle, Context::Idle));
}

#[test]
fn partition_hands_each_handle_to_its_owner() {
    let (interrupt, idle) = partition("tc4", "d13", vec![1u8, 2, 3], 915u32);
    assert_eq!(interrupt.timer, "tc4");
    assert_eq!(idle.status_led, "d13");
    assert_eq!(idle.led_strip, vec![1u8, 2, 3]);
    assert_eq!(idle.radio, 915);
}

#[test]
fn the_handler_runs_on_a_signal_and_the_main_loop_resumes_after_it() {
    let mut scheduler = Scheduler::new();
    assert_eq!(scheduler.running_context(), Context::Idle);
    assert!(scheduler.timer_signal());
    assert_eq!(scheduler.running_context(), Context::Interrupt);
    assert!(!scheduler.timer_signal());
    assert_eq!(scheduler.running_context(), Context::Interrupt);
    scheduler.handler_return();
    assert_eq!(scheduler.running_context(), Context::Idle);
    scheduler.handler_return();
    assert_eq!(scheduler.running_context(), Context::Idle);
    assert!(scheduler.timer_signal());
}
