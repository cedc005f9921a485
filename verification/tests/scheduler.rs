use romcomp::convert::Converter;
use romcomp::job::JobState;
use romcomp::rom_format::{RomFormat, ISO, PLAYSTATION_X};

fn submit(c: &mut Converter, output_exists: bool) -> Option<romcomp::job::ConversionJob> {
    c.convert(
        &"roms/game.iso".to_string(),
        RomFormat::from_bits(ISO | PLAYSTATION_X),
        output_exists,
    )
}

fn fresh(threads: usize) -> Converter {
    Converter::new(&"/roms".to_string(), "/scratch".to_string(), threads)
}

#[test]
fn builders_set_the_policy_switches() {
    let c = fresh(4).verbose(true).remove_after_compression(true).flatten(true);
    assert!(c.verbose);
    assert!(c.remove_after_compression);
    assert!(c.flatten);
    assert_eq!(c.available_threads, 4);
    assert_eq!(c.root_directory, "/roms");
    assert_eq!(c.temp_dir, "/scratch");
}

#[test]
fn existing_output_moves_only_the_skipped_counter() {
    let mut c = fresh(2);
    let job = submit(&mut c, true);
    assert!(job.is_none());
    assert_eq!(c.skipped_files, 1);
    assert_eq!(c.processed_files, 0);
    assert_eq!(c.thread_count, 0);
    assert_eq!(c.input_file_size, 0);
    assert_eq!(c.output_file_size, 0);
}

#[test]
fn a_batch_whose_outputs_all_exist_is_skipped_entirely() {
    let mut c = fresh(2);
    for _ in 0..5 {
        assert!(submit(&mut c, true).is_none());
    }
    assert_eq!(c.skipped_files, 5);
    assert_eq!(c.processed_files, 0);
    assert_eq!(c.thread_count, 0);
    let s = c.finish();
    assert_eq!(s.processed, 0);
    assert_eq!(s.skipped, 5);
    assert_eq!(s.total, 5);
}

#[test]
fn admission_takes_a_slot_and_completion_releases_it() {
    let mut c = fresh(2);
    assert!(c.has_slot());
    let job = submit(&mut c, false).expect("a fresh output admits a job");
    assert_eq!(job.source, "roms/game.iso");
    assert_eq!(job.state, JobState::Planned);
    assert_eq!(c.thread_count, 1);
    assert!(c.has_slot());
    assert!(submit(&mut c, false).is_some());
    assert_eq!(c.thread_count, 2);
    assert!(!c.has_slot());
    c.job_finished(true, 100, 40);
    assert_eq!(c.thread_count, 1);
    assert!(c.has_slot());
}

#[test]
fn counters_accumulate_and_never_decrease() {
    let mut c = fresh(4);
    submit(&mut c, false);
    c.job_finished(true, 1000, 400);
    assert_eq!((c.input_file_size, c.output_file_size), (1000, 400));
    submit(&mut c, false);
    c.job_finished(true, 500, 100);
    assert_eq!((c.input_file_size, c.output_file_size), (1500, 500));
    submit(&mut c, true);
    assert_eq!(c.processed_files, 2);
    assert_eq!(c.skipped_files, 1);

    let s = c.finish();
    assert_eq!(s.processed, 2);
    assert_eq!(s.skipped, 1);
    assert_eq!(s.total, 3);
    assert_eq!(s.input_bytes, 1500);
    assert_eq!(s.output_bytes, 500);
    assert_eq!(s.saved_bytes, 1000);
}

#[test]
fn interrupted_jobs_fold_into_no_counter() {
    let mut c = fresh(1);
    submit(&mut c, false);
    c.job_finished(false, 0, 0);
    assert_eq!(c.processed_files, 0);
    assert_eq!(c.skipped_files, 0);
    assert_eq!(c.thread_count, 0);
}

#[test]
fn savings_never_go_negative() {
    let mut c = fresh(1);
    submit(&mut c, false);
    c.job_finished(true, 100, 400);
    let s = c.finish();
    assert_eq!(s.saved_bytes, 0);
    assert_eq!(s.input_bytes, 100);
    assert_eq!(s.output_bytes, 400);
}
