use proto::{generate_job_events, JobEvent, JobEventData, JobEventStatus, JOB_TOPIC};

#[test]
fn each_status_answers_to_its_own_question_only() {
    let all = [
        JobEventStatus::Requested,
        JobEventStatus::Pending,
        JobEventStatus::Completed,
        JobEventStatus::Canceled,
    ];
    for (i, status) in all.iter().enumerate() {
        assert_eq!(status.is_requested(), i == 0);
        assert_eq!(status.is_pending(), i == 1);
        assert_eq!(status.is_completed(), i == 2);
        assert_eq!(status.is_canceled(), i == 3);
    }
}

#[test]
fn a_job_starts_out_requested() {
    assert_eq!(JobEventStatus::default(), JobEventStatus::Requested);
    assert_eq!(JobEventData::default(), JobEventData::RoomClean {});
    assert_eq!(
        JobEvent::default(),
        JobEvent { status: JobEventStatus::Requested, room: 0, data: JobEventData::RoomClean {} }
    );
}

#[test]
fn one_job_of_every_kind_is_generated() {
    let events = generate_job_events();
    let kinds: Vec<JobEventData> = events.iter().map(|event| event.data).collect();
    assert_eq!(
        kinds,
        vec![
            JobEventData::RoomClean {},
            JobEventData::TaxiOrder {},
            JobEventData::ExtraTowels {},
            JobEventData::ExtraPillows {},
            JobEventData::FoodOrder {},
        ]
    );
    for event in &events {
        assert!(event.status.is_requested());
        assert_eq!(event.room, 0);
    }
}

#[test]
fn jobs_go_to_the_jobs_stream() {
    assert_eq!(JOB_TOPIC, "jobs");
}
