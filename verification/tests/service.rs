use covers_api::cache::{cache_invalidation_path, update_cache_cover};
use covers_api::config::Config;
use covers_api::cover::{cover_file_name, default_cover_file_name, CoverSize};
use covers_api::error::AppError;
use covers_api::image::{resolution, write_cover_plan};
use covers_api::numfmt::u32_to_string;
use covers_api::provider::{openlibrary_cover_url, CoverProvider};
use covers_api::supervisor::{
    manage_tracker_status, phase_step, JobEvent, JobPhase, ProgressChannel, TrackerAction,
};

#[test]
fn clock_reads_a_post_epoch_instant() {
    // The wall clock promises nothing, but on any machine running
    // this suite it is far past the epoch, and the clamp keeps it in
    // the unsigned range.
    let t = covers_api::clock::current_time_seconds();
    assert!(t > 1_000_000_000);
}

#[test]
fn clamping_pins_pre_epoch_instants_to_zero() {
    assert_eq!(covers_api::clock::clamp_epoch_seconds(-5), 0);
    assert_eq!(covers_api::clock::clamp_epoch_seconds(0), 0);
    assert_eq!(covers_api::clock::clamp_epoch_seconds(7), 7);
}

#[test]
fn decimal_rendering_matches_display() {
    assert_eq!(u32_to_string(0), "0");
    assert_eq!(u32_to_string(7), "7");
    assert_eq!(u32_to_string(10), "10");
    assert_eq!(u32_to_string(305), "305");
    assert_eq!(u32_to_string(u32::MAX), "4294967295");
}

#[test]
fn file_names_follow_the_convention() {
    assert_eq!(cover_file_name(12, CoverSize::Medium), "12-M.webp");
    assert_eq!(cover_file_name(12, CoverSize::Large), "12-L.webp");
    assert_eq!(cover_file_name(7, CoverSize::Small), "7-S.webp");
    assert_eq!(default_cover_file_name(CoverSize::Small), "cover-default-S.webp");
}

#[test]
fn write_plan_covers_every_variant() {
    let plan = write_cover_plan(3);
    assert_eq!(plan.len(), 3);
    assert_eq!(plan[0].name, "3-L.webp");
    assert_eq!(plan[0].resolution, 240);
    assert_eq!(plan[1].name, "3-M.webp");
    assert_eq!(plan[1].resolution, 45);
    assert_eq!(plan[2].name, "3-S.webp");
    assert_eq!(plan[2].resolution, 135);
    assert_eq!(resolution(CoverSize::Large), 240);
}

#[test]
fn cache_trigger_issues_one_request_per_variant() {
    let reqs = update_cache_cover(42);
    assert_eq!(reqs.len(), 3);
    let sizes: Vec<CoverSize> = reqs.iter().map(|r| r.size).collect();
    assert_eq!(sizes, vec![CoverSize::Large, CoverSize::Medium, CoverSize::Small]);
    for r in &reqs {
        assert_eq!(r.id, 42);
    }
}

#[test]
fn cache_paths_name_id_and_variant() {
    assert_eq!(cache_invalidation_path(42, CoverSize::Large), "/api/1/cache/path/42/cover-L");
    assert_eq!(cache_invalidation_path(42, CoverSize::Small), "/api/1/cache/path/42/cover-S");
}

#[test]
fn openlibrary_url_embeds_barcode() {
    assert_eq!(
        openlibrary_cover_url("9780000000001"),
        "https://covers.openlibrary.org/b/isbn/9780000000001-L.jpg?default=false"
    );
}

#[test]
fn provider_codes_and_fetchability() {
    assert_eq!(CoverProvider::OpenLibrary.code(), 0);
    assert_eq!(CoverProvider::Manual.code(), 1);
    assert!(CoverProvider::OpenLibrary.is_fetchable());
    assert!(!CoverProvider::Manual.is_fetchable());
}

#[test]
fn error_kinds_map_to_status_codes() {
    assert_eq!(AppError::FileNotFound.status_code(), 404);
    assert_eq!(AppError::Host.status_code(), 400);
    assert_eq!(AppError::Conf.status_code(), 500);
    assert_eq!(AppError::Backend.status_code(), 500);
    assert_eq!(AppError::Db.status_code(), 500);
}

#[test]
fn transmit_error_keeps_the_error_and_adds_a_hint() {
    let (e, hint) = AppError::Conf.transmit_error();
    assert_eq!(e, AppError::Conf);
    assert_eq!(hint, "check configuration file");
    let (e, hint) = AppError::Backend.transmit_error();
    assert_eq!(e, AppError::Backend);
    assert_eq!(hint, "a backend service seems to be unjoinable");
}

#[test]
fn default_config_is_the_documented_example() {
    let c = Config::default();
    assert_eq!(c.cover_db_uri, "mysql://cover@localhost:3306/cover");
    assert_eq!(c.listen_port, 8000);
    assert_eq!(c.wait_seconds_retry_retrieve_cover, 3600);
    assert_eq!(c.hostname, "covers.example.net");
    assert_eq!(c.providers.len(), 1);
    assert_eq!(c.providers[0], CoverProvider::OpenLibrary);
    assert_eq!(c.tasks_api_pass_path, "admin/tasks-tracker/token");
}

#[test]
fn job_phases_never_return_to_running() {
    assert_eq!(phase_step(JobPhase::Created, JobEvent::Started), JobPhase::Running);
    assert_eq!(phase_step(JobPhase::Running, JobEvent::JobSucceeded), JobPhase::Succeeded);
    assert_eq!(phase_step(JobPhase::Running, JobEvent::JobFailed), JobPhase::Failed);
    assert_eq!(phase_step(JobPhase::Succeeded, JobEvent::CacheOk), JobPhase::CacheInvalidated);
    assert_eq!(
        phase_step(JobPhase::Succeeded, JobEvent::CacheFailed),
        JobPhase::CacheInvalidationFailed
    );
    // Terminal phases absorb every event.
    for event in [
        JobEvent::Started,
        JobEvent::JobSucceeded,
        JobEvent::JobFailed,
        JobEvent::CacheOk,
        JobEvent::CacheFailed,
    ] {
        assert_eq!(phase_step(JobPhase::Failed, event), JobPhase::Failed);
        assert_eq!(phase_step(JobPhase::CacheInvalidated, event), JobPhase::CacheInvalidated);
        assert_eq!(
            phase_step(JobPhase::CacheInvalidationFailed, event),
            JobPhase::CacheInvalidationFailed
        );
    }
}

#[test]
fn supervisor_finishes_on_success_aborts_on_failure() {
    assert_eq!(manage_tracker_status(true), (TrackerAction::Finish, true));
    assert_eq!(manage_tracker_status(false), (TrackerAction::Abort, false));
}

#[test]
fn progress_channel_is_fifo_and_drops_on_overflow() {
    let mut ch = ProgressChannel::new(4);
    assert!(ch.try_send(10));
    assert!(ch.try_send(20));
    assert!(ch.try_send(30));
    assert!(ch.try_send(40));
    // Full: the fifth value is dropped, the producer is not stalled.
    assert!(!ch.try_send(50));
    assert_eq!(ch.recv(), Some(10));
    assert_eq!(ch.recv(), Some(20));
    // Room again.
    assert!(ch.try_send(60));
    assert_eq!(ch.recv(), Some(30));
    assert_eq!(ch.recv(), Some(40));
    assert_eq!(ch.recv(), Some(60));
    assert_eq!(ch.recv(), None);
}

#[test]
fn draining_forwards_everything_in_send_order() {
    let mut ch = ProgressChannel::new(4);
    assert!(ch.try_send(1));
    assert!(ch.try_send(50));
    assert!(ch.try_send(100));
    assert_eq!(ch.drain(), vec![1, 50, 100]);
    assert_eq!(ch.recv(), None);
}
