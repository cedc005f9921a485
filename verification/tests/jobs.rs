use romcomp::job::{ConversionJob, JobState, PollAction, PollStatus};
use romcomp::plan::Role;
use romcomp::rom_format::{
    BIN, ISO, N64, NDS, NINTENDO_64, NINTENDO_DS, PLAYSTATION_2, PLAYSTATION_X, RomFormat,
};

fn job(path: &str, bits: u16) -> ConversionJob {
    ConversionJob::new(path.to_string(), RomFormat::from_bits(bits))
}

#[test]
fn disc_pair_scenario_from_cue_and_bin() {
    // inputs: game.bin + game.cue, the cue referencing game.bin only,
    // narrowed to the PlayStation disc pair.
    let mut j = job("roms/game.cue", BIN | PLAYSTATION_X | PLAYSTATION_2);
    assert_eq!(j.state, JobState::Planned);
    let copies = j.begin(false, &vec!["game.bin".to_string()], &"/scratch".to_string());
    assert_eq!(j.state, JobState::Running);
    assert!(copies.is_empty());

    // the planned set: both real files as inputs, plus the output entry.
    let inputs: Vec<(&str, Role)> =
        j.files.iter().map(|f| (f.path.as_str(), f.role)).collect();
    assert_eq!(
        inputs,
        vec![
            ("roms/game.cue", Role::Input),
            ("roms/game.bin", Role::Input),
            ("roms/game.chd", Role::Output),
        ]
    );

    // the resolved tool runs on the cue sheet and writes the archive name.
    let inv = j.invocation().expect("the disc pair resolves to a tool");
    assert_eq!(inv.program, "chdman");
    assert_eq!(
        inv.args,
        vec!["createcd", "-i", "roms/game.cue", "-o", "roms/game.chd"]
    );
    assert_eq!(j.output_path(), Some("roms/game.chd".to_string()));
}

#[test]
fn text_suffixed_cue_is_staged_to_its_canonical_name() {
    let mut j = job("roms/game.cue.txt", BIN | PLAYSTATION_X);
    let copies = j.begin(false, &vec!["game.bin".to_string()], &"/scratch".to_string());
    assert_eq!(copies.len(), 1);
    assert_eq!(copies[0].from, "roms/game.cue.txt");
    assert_eq!(copies[0].to, "roms/game.cue");
    let tagged: Vec<(&str, Role)> = j.files.iter().map(|f| (f.path.as_str(), f.role)).collect();
    assert_eq!(
        tagged,
        vec![
            ("roms/game.cue.txt", Role::Input),
            ("roms/game.cue", Role::Temporary),
            ("roms/game.bin", Role::Input),
            ("roms/game.chd", Role::Output),
        ]
    );
    let inv = j.invocation().unwrap();
    assert_eq!(
        inv.args,
        vec!["createcd", "-i", "roms/game.cue", "-o", "roms/game.chd"]
    );
}

#[test]
fn nds_stages_a_copy_into_the_scratch_directory() {
    let mut j = job("roms/game.nds", NDS | NINTENDO_DS);
    let copies = j.begin(false, &Vec::new(), &"/scratch".to_string());
    assert_eq!(copies.len(), 1);
    assert_eq!(copies[0].from, "roms/game.nds");
    assert_eq!(copies[0].to, "/scratch/game.nds");
    let inv = j.invocation().unwrap();
    assert_eq!(inv.program, "BitButcher");
    assert_eq!(inv.args, vec!["-e", "/scratch/game.nds"]);
    assert!(j.needs_packaging());
    assert_eq!(j.packaging_source(), "/scratch/game.nds");
}

#[test]
fn non_canonical_n64_registers_the_tools_sibling_as_temporary() {
    let mut j = job("roms/game.n64", N64 | NINTENDO_64);
    let copies = j.begin(false, &Vec::new(), &"/scratch".to_string());
    assert!(copies.is_empty());
    let tagged: Vec<(&str, Role)> = j.files.iter().map(|f| (f.path.as_str(), f.role)).collect();
    assert_eq!(
        tagged,
        vec![
            ("roms/game.n64", Role::Input),
            ("roms/game.z64", Role::Temporary),
            ("roms/game.zip", Role::Output),
        ]
    );
    // the archive wraps the canonical variant the tool wrote.
    assert_eq!(j.packaging_source(), "roms/game.z64");
}

#[test]
fn plain_iso_needs_no_staging() {
    let mut j = job("roms/game.iso", ISO | PLAYSTATION_X);
    let copies = j.begin(false, &Vec::new(), &"/scratch".to_string());
    assert!(copies.is_empty());
    let tagged: Vec<(&str, Role)> = j.files.iter().map(|f| (f.path.as_str(), f.role)).collect();
    assert_eq!(
        tagged,
        vec![
            ("roms/game.iso", Role::Input),
            ("roms/game.chd", Role::Output),
        ]
    );
    assert!(!j.needs_packaging());
}

#[test]
fn existing_output_skips_without_side_effects() {
    let mut j = job("roms/game.iso", ISO | PLAYSTATION_X);
    let copies = j.begin(true, &Vec::new(), &"/scratch".to_string());
    assert!(copies.is_empty());
    assert_eq!(j.state, JobState::Skipped);
    assert!(j.files.is_empty());
    assert_eq!(j.cleanup(true), Vec::<String>::new());
}

#[test]
fn polling_reacts_to_exit_and_cancellation() {
    let mut j = job("roms/game.iso", ISO | PLAYSTATION_X);
    j.begin(false, &Vec::new(), &"/scratch".to_string());
    assert_eq!(j.poll(PollStatus::StillRunning, false), PollAction::Wait);
    assert_eq!(j.state, JobState::Running);
    assert_eq!(j.poll(PollStatus::ExitedOk, false), PollAction::Proceed);
    assert_eq!(j.state, JobState::Running);
    assert_eq!(j.poll(PollStatus::StillRunning, true), PollAction::Kill);
    assert_eq!(j.state, JobState::Interrupted);

    let mut failing = job("roms/game.iso", ISO | PLAYSTATION_X);
    failing.begin(false, &Vec::new(), &"/scratch".to_string());
    assert_eq!(failing.poll(PollStatus::ExitedErr, false), PollAction::Abort);
    assert_eq!(failing.state, JobState::Interrupted);
}

#[test]
fn input_sizes_sum_over_input_entries_only() {
    let mut j = job("roms/game.cue.txt", BIN | PLAYSTATION_X);
    j.begin(false, &vec!["game.bin".to_string()], &"/scratch".to_string());
    // cue.txt (input), staged cue (temporary), bin (input), output
    j.measure_inputs(&vec![10, 5, 700, 3]);
    assert_eq!(j.input_size, 710);
}

#[test]
fn completion_records_the_output_size() {
    let mut j = job("roms/game.iso", ISO | PLAYSTATION_X);
    j.begin(false, &Vec::new(), &"/scratch".to_string());
    j.complete(4096);
    assert_eq!(j.state, JobState::Completed);
    assert_eq!(j.output_size, 4096);
}

#[test]
fn interrupted_cleanup_keeps_inputs_even_under_the_remove_policy() {
    let mut j = job("roms/game.cue.txt", BIN | PLAYSTATION_X);
    j.begin(false, &vec!["game.bin".to_string()], &"/scratch".to_string());
    j.interrupt();
    assert_eq!(j.state, JobState::Interrupted);
    // temporaries and the partial output go; both inputs stay.
    assert_eq!(
        j.cleanup(true),
        vec!["roms/game.cue".to_string(), "roms/game.chd".to_string()]
    );
}

#[test]
fn completed_cleanup_follows_the_remove_policy() {
    let mut j = job("roms/game.cue.txt", BIN | PLAYSTATION_X);
    j.begin(false, &vec!["game.bin".to_string()], &"/scratch".to_string());
    j.complete(100);
    assert_eq!(
        j.cleanup(true),
        vec![
            "roms/game.cue.txt".to_string(),
            "roms/game.cue".to_string(),
            "roms/game.bin".to_string(),
        ]
    );

    let mut keep = job("roms/game.cue.txt", BIN | PLAYSTATION_X);
    keep.begin(false, &vec!["game.bin".to_string()], &"/scratch".to_string());
    keep.complete(100);
    assert_eq!(keep.cleanup(false), vec!["roms/game.cue".to_string()]);
}

#[test]
fn input_size_saturates_instead_of_overflowing() {
    let mut j = job("roms/game.cue", BIN | PLAYSTATION_X);
    j.begin(false, &vec!["game.bin".to_string()], &"/scratch".to_string());
    // cue (input), bin (input), output
    j.measure_inputs(&vec![u64::MAX, 1, 0]);
    assert_eq!(j.input_size, u64::MAX);
}
