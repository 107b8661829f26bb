use sensor::acquisition::{
    report_line, Acquisition, AcquisitionAction, AcquisitionEvent, AcquisitionPhase,
    SAMPLE_PAUSE_MS,
};
use sensor::reading::Reading;
use sensor::store::SharedReading;

#[test]
fn begins_with_a_sample() {
    let (job, action) = Acquisition::begin();
    assert_eq!(job.phase, AcquisitionPhase::Sampling);
    assert_eq!(action, AcquisitionAction::Sample);
}

#[test]
fn stores_a_good_sample_then_pauses() {
    let mut store = SharedReading::new();
    let (mut job, _) = Acquisition::begin();
    let reading = Reading::from_bits(21.0f32.to_bits(), 40.0f32.to_bits());
    let action = job.step(AcquisitionEvent::Sampled(reading), &mut store);
    assert_eq!(action, Some(AcquisitionAction::Pause(2000)));
    assert_eq!(SAMPLE_PAUSE_MS, 2000);
    assert_eq!(job.phase, AcquisitionPhase::Resting);
    assert_eq!(store.get(), reading);
}

#[test]
fn failed_read_leaves_the_store_unchanged() {
    let mut store = SharedReading::new();
    let (mut job, _) = Acquisition::begin();
    let reading = Reading::from_bits(19.5f32.to_bits(), 61.0f32.to_bits());
    job.step(AcquisitionEvent::Sampled(reading), &mut store);
    job.step(AcquisitionEvent::Elapsed, &mut store);
    let before = store.get();
    let action = job.step(AcquisitionEvent::SampleFailed, &mut store);
    assert_eq!(action, Some(AcquisitionAction::Pause(2000)));
    assert_eq!(job.phase, AcquisitionPhase::Resting);
    assert_eq!(store.get(), before);
    assert_eq!(store.get(), reading);
}

#[test]
fn failed_first_read_leaves_the_zero_reading() {
    let mut store = SharedReading::new();
    let (mut job, _) = Acquisition::begin();
    assert_eq!(
        job.step(AcquisitionEvent::SampleFailed, &mut store),
        Some(AcquisitionAction::Pause(2000))
    );
    assert_eq!(store.get(), Reading::new());
}

#[test]
fn samples_again_after_every_pause() {
    let mut store = SharedReading::new();
    let (mut job, _) = Acquisition::begin();
    let mut round: u32 = 0;
    while round < 10 {
        let event = if round % 2 == 0 {
            AcquisitionEvent::SampleFailed
        } else {
            AcquisitionEvent::Sampled(Reading::from_bits(round, round + 1))
        };
        assert_eq!(job.step(event, &mut store), Some(AcquisitionAction::Pause(2000)));
        assert_eq!(job.step(AcquisitionEvent::Elapsed, &mut store), Some(AcquisitionAction::Sample));
        round += 1;
    }
    assert_eq!(store.get(), Reading::from_bits(9, 10));
}

#[test]
fn ignores_events_it_does_not_wait_for() {
    let mut store = SharedReading::new();
    let (mut job, _) = Acquisition::begin();
    assert_eq!(job.step(AcquisitionEvent::Elapsed, &mut store), None);
    assert_eq!(job.phase, AcquisitionPhase::Sampling);
    job.step(AcquisitionEvent::SampleFailed, &mut store);
    let late = Reading::from_bits(1, 2);
    assert_eq!(job.step(AcquisitionEvent::Sampled(late), &mut store), None);
    assert_eq!(job.step(AcquisitionEvent::SampleFailed, &mut store), None);
    assert_eq!(job.phase, AcquisitionPhase::Resting);
    assert_eq!(store.get(), Reading::new());
}

#[test]
fn reports_a_sample_to_two_places() {
    let reading = Reading::from_bits(23.456f32.to_bits(), 55.1f32.to_bits());
    assert_eq!(report_line(reading), "Temperature: 23.46, Humidity: 55.10");
    assert_eq!(
        report_line(reading),
        format!("Temperature: {:.2}, Humidity: {:.2}", 23.456f32, 55.1f32)
    );
}
