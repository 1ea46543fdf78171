use host_health::binary32::Binary32;
use host_health::sampler::{
    get_cpu_usage_state, CpuLoadSampler, SamplerAction, SamplerEvent, WINDOW_MILLIS,
};
use host_health::state::HealthState;

fn number(value: f32) -> Binary32 {
    Binary32::from_bits(value.to_bits())
}

fn step(sampler: CpuLoadSampler, event: SamplerEvent) -> (CpuLoadSampler, SamplerAction) {
    let (sampler, action) = sampler.step(event);
    (sampler, action.unwrap())
}

#[test]
fn window_is_one_second_long() {
    assert_eq!(WINDOW_MILLIS, 1000);
}

#[test]
fn load_reading_by_busy_fraction() {
    let reading = get_cpu_usage_state(Ok(number(0.1)));
    assert_eq!(reading.state, HealthState::Healthy);
    assert_eq!(reading.value, number(0.1));
    assert_eq!(reading.message, "");
    assert_eq!(get_cpu_usage_state(Ok(number(0.7))).state, HealthState::Healthy);
    assert_eq!(get_cpu_usage_state(Ok(number(0.8))).state, HealthState::Unhealthy);
    assert_eq!(get_cpu_usage_state(Ok(number(0.999))).state, HealthState::Unhealthy);
    assert_eq!(get_cpu_usage_state(Ok(number(0.9995))).state, HealthState::Critical);
    assert_eq!(get_cpu_usage_state(Ok(number(1.0))).state, HealthState::Critical);
}

#[test]
fn failed_load_reading_is_critical_with_the_message() {
    let reading = get_cpu_usage_state(Err(String::from("not supported")));
    assert_eq!(reading.state, HealthState::Critical);
    assert_eq!(reading.value.to_bits(), 0);
    assert_eq!(reading.message, "not supported");
}

#[test]
fn one_turn_of_the_cycle_publishes_the_measurement() {
    let sampler = CpuLoadSampler::new();
    assert!(matches!(sampler, CpuLoadSampler::Idle));
    let (sampler, action) = step(sampler, SamplerEvent::Wake);
    assert!(matches!(action, SamplerAction::BeginSample));
    assert!(matches!(sampler, CpuLoadSampler::Beginning));
    let (sampler, action) = step(sampler, SamplerEvent::Begun(Ok(())));
    assert!(matches!(action, SamplerAction::Sleep { millis: 1000 }));
    assert!(matches!(sampler, CpuLoadSampler::Waiting { failure: None }));
    let (sampler, action) = step(sampler, SamplerEvent::WindowElapsed);
    assert!(matches!(action, SamplerAction::FinishSample));
    assert!(matches!(sampler, CpuLoadSampler::Finishing));
    let (sampler, action) = step(sampler, SamplerEvent::Finished(Ok(number(0.85))));
    assert!(matches!(sampler, CpuLoadSampler::Idle));
    match action {
        SamplerAction::Publish(reading) => {
            assert_eq!(reading.state, HealthState::Unhealthy);
            assert_eq!(reading.value, number(0.85));
            assert_eq!(reading.message, "");
        }
        other => panic!("unexpected action {other:?}"),
    }
    let (_, action) = step(sampler, SamplerEvent::Wake);
    assert!(matches!(action, SamplerAction::BeginSample));
}

#[test]
fn measurement_that_cannot_be_begun_is_published_after_the_window() {
    let (sampler, _) = step(CpuLoadSampler::new(), SamplerEvent::Wake);
    let (sampler, action) = step(sampler, SamplerEvent::Begun(Err(String::from("no /proc/stat"))));
    assert!(matches!(action, SamplerAction::Sleep { millis: 1000 }));
    let (sampler, action) = step(sampler, SamplerEvent::WindowElapsed);
    assert!(matches!(sampler, CpuLoadSampler::Idle));
    match action {
        SamplerAction::Publish(reading) => {
            assert_eq!(reading.state, HealthState::Critical);
            assert_eq!(reading.value.to_bits(), 0);
            assert_eq!(reading.message, "no /proc/stat");
        }
        other => panic!("unexpected action {other:?}"),
    }
    let (sampler, action) = step(sampler, SamplerEvent::Wake);
    assert!(matches!(action, SamplerAction::BeginSample));
    assert!(matches!(sampler, CpuLoadSampler::Beginning));
}

#[test]
fn measurement_that_cannot_be_finished_is_published_as_a_failure() {
    let (sampler, _) = step(CpuLoadSampler::new(), SamplerEvent::Wake);
    let (sampler, _) = step(sampler, SamplerEvent::Begun(Ok(())));
    let (sampler, _) = step(sampler, SamplerEvent::WindowElapsed);
    let (sampler, action) = step(sampler, SamplerEvent::Finished(Err(String::from("interrupted"))));
    assert!(matches!(sampler, CpuLoadSampler::Idle));
    match action {
        SamplerAction::Publish(reading) => {
            assert_eq!(reading.state, HealthState::Critical);
            assert_eq!(reading.message, "interrupted");
        }
        other => panic!("unexpected action {other:?}"),
    }
}

#[test]
fn event_out_of_turn_changes_nothing() {
    let (sampler, action) = CpuLoadSampler::new().step(SamplerEvent::WindowElapsed);
    assert!(action.is_none());
    assert!(matches!(sampler, CpuLoadSampler::Idle));
    let (sampler, action) = sampler.step(SamplerEvent::Finished(Ok(number(0.5))));
    assert!(action.is_none());
    assert!(matches!(sampler, CpuLoadSampler::Idle));
    let (sampler, _) = step(sampler, SamplerEvent::Wake);
    let (sampler, action) = sampler.step(SamplerEvent::Wake);
    assert!(action.is_none());
    assert!(matches!(sampler, CpuLoadSampler::Beginning));
    let (sampler, _) = step(sampler, SamplerEvent::Begun(Err(String::from("why"))));
    let (sampler, action) = sampler.step(SamplerEvent::Begun(Ok(())));
    assert!(action.is_none());
    match sampler {
        CpuLoadSampler::Waiting { failure } => assert_eq!(failure.as_deref(), Some("why")),
        other => panic!("unexpected sampler {other:?}"),
    }
}

#[test]
fn cancelled_stops_the_sampler_for_good() {
    let (sampler, _) = step(CpuLoadSampler::new(), SamplerEvent::Wake);
    let (sampler, _) = step(sampler, SamplerEvent::Begun(Ok(())));
    let (sampler, action) = step(sampler, SamplerEvent::Cancelled);
    assert!(matches!(action, SamplerAction::Stop));
    assert!(matches!(sampler, CpuLoadSampler::Stopped));
    let (sampler, action) = sampler.step(SamplerEvent::Wake);
    assert!(action.is_none());
    let (sampler, action) = sampler.step(SamplerEvent::Cancelled);
    assert!(action.is_none());
    assert!(matches!(sampler, CpuLoadSampler::Stopped));
}

#[test]
fn sampler_keeps_turning_through_failures() {
    let mut sampler = CpuLoadSampler::new();
    let mut event = SamplerEvent::Wake;
    let mut published = Vec::new();
    let mut turns = 0;
    while published.len() < 4 {
        let (next, action) = sampler.step(event);
        sampler = next;
        event = match action.unwrap() {
            SamplerAction::BeginSample => {
                turns += 1;
                if turns % 2 == 0 {
                    SamplerEvent::Begun(Err(format!("failure {turns}")))
                } else {
                    SamplerEvent::Begun(Ok(()))
                }
            }
            SamplerAction::Sleep { millis } => {
                assert_eq!(millis, 1000);
                SamplerEvent::WindowElapsed
            }
            SamplerAction::FinishSample => SamplerEvent::Finished(Ok(number(0.25))),
            SamplerAction::Publish(reading) => {
                published.push(reading);
                SamplerEvent::Wake
            }
            SamplerAction::Stop => panic!("stopped"),
        };
    }
    assert_eq!(published[0].state, HealthState::Healthy);
    assert_eq!(published[1].state, HealthState::Critical);
    assert_eq!(published[1].message, "failure 2");
    assert_eq!(published[2].state, HealthState::Healthy);
    assert_eq!(published[3].message, "failure 4");
}
