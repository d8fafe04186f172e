use conda_front::error::CondaError;
use conda_front::runner::{
    check_installed, classify, for_environment, probe_arguments, program, Command, Invocation,
};

fn owned(text: &str) -> String {
    String::from(text)
}

fn exited(code: Option<i32>, stdout: &str, stderr: &str) -> Invocation {
    Invocation::Exited {
        code,
        stdout: stdout.as_bytes().to_vec(),
        stderr: stderr.as_bytes().to_vec(),
    }
}

fn packages_of(name: &str) -> Command {
    Command::ListPackages { env_name: owned(name) }
}

#[test]
fn program_is_conda() {
    assert_eq!(program(), "conda");
}

#[test]
fn probe_asks_for_the_version() {
    assert_eq!(probe_arguments(), vec![owned("--version")]);
}

#[test]
fn arguments_of_list_envs() {
    assert_eq!(
        Command::ListEnvs.arguments(),
        vec![owned("env"), owned("list"), owned("--json")]
    );
}

#[test]
fn arguments_of_list_packages() {
    assert_eq!(
        packages_of("ml").arguments(),
        vec![owned("list"), owned("-n"), owned("ml"), owned("--json")]
    );
}

#[test]
fn banner_of_each_command() {
    assert_eq!(Command::ListEnvs.banner(), "Listing Conda environments...");
    assert_eq!(packages_of("ml").banner(), "Listing packages for environment: ml");
}

#[test]
fn probe_that_did_not_start_means_not_installed() {
    let probe = Invocation::NotStarted { tool_missing: true, reason: owned("No such file or directory") };
    assert_eq!(check_installed(&probe), Err(CondaError::NotInstalled));
    let probe = Invocation::NotStarted { tool_missing: false, reason: owned("Permission denied") };
    assert_eq!(check_installed(&probe), Err(CondaError::NotInstalled));
}

#[test]
fn probe_that_ran_means_installed() {
    assert_eq!(check_installed(&exited(Some(0), "conda 24.1.2\n", "")), Ok(()));
    assert_eq!(check_installed(&exited(Some(1), "", "usage")), Ok(()));
    assert_eq!(check_installed(&exited(None, "", "")), Ok(()));
}

#[test]
fn success_gives_the_output_stream() {
    let payload = "{\"envs\":[\"/opt/conda/envs/base\"]}";
    assert_eq!(classify(exited(Some(0), payload, "")), Ok(payload.as_bytes().to_vec()));
}

#[test]
fn success_ignores_the_error_stream() {
    assert_eq!(
        classify(exited(Some(0), "[]", "warning: not found in cache")),
        Ok(b"[]".to_vec())
    );
    assert_eq!(
        packages_of("ml").outcome(exited(Some(0), "[]", "warning: not found in cache")),
        Ok(b"[]".to_vec())
    );
}

#[test]
fn success_with_empty_output_is_still_success() {
    assert_eq!(classify(exited(Some(0), "", "")), Ok(Vec::new()));
}

#[test]
fn missing_tool_is_not_installed() {
    let run = Invocation::NotStarted { tool_missing: true, reason: owned("No such file or directory (os error 2)") };
    assert_eq!(classify(run.clone()), Err(CondaError::NotInstalled));
    assert_eq!(Command::ListEnvs.outcome(run.clone()), Err(CondaError::NotInstalled));
    assert_eq!(packages_of("ml").outcome(run), Err(CondaError::NotInstalled));
}

#[test]
fn missing_tool_with_not_found_in_reason_is_still_not_installed() {
    let run = Invocation::NotStarted { tool_missing: true, reason: owned("program not found") };
    assert_eq!(packages_of("ml").outcome(run), Err(CondaError::NotInstalled));
}

#[test]
fn other_start_failure_is_an_io_error() {
    let run = Invocation::NotStarted { tool_missing: false, reason: owned("Permission denied (os error 13)") };
    assert_eq!(
        classify(run.clone()),
        Err(CondaError::IoError(owned("Permission denied (os error 13)")))
    );
    assert_eq!(
        packages_of("ml").outcome(run),
        Err(CondaError::IoError(owned("Permission denied (os error 13)")))
    );
}

#[test]
fn io_error_that_says_not_found_stays_an_io_error() {
    let run = Invocation::NotStarted { tool_missing: false, reason: owned("library not found") };
    assert_eq!(
        packages_of("ml").outcome(run),
        Err(CondaError::IoError(owned("library not found")))
    );
}

#[test]
fn failure_takes_the_error_stream_first() {
    assert_eq!(
        classify(exited(Some(1), "partial output", "CondaError: broken\n")),
        Err(CondaError::CommandFailed(owned("CondaError: broken\n")))
    );
}

#[test]
fn failure_with_empty_error_stream_takes_the_output_stream() {
    assert_eq!(
        classify(exited(Some(1), "{\"error\": \"bad\"}", "")),
        Err(CondaError::CommandFailed(owned("{\"error\": \"bad\"}")))
    );
    assert_eq!(
        Command::ListEnvs.outcome(exited(Some(3), "details on stdout", "")),
        Err(CondaError::CommandFailed(owned("details on stdout")))
    );
}

#[test]
fn failure_with_both_streams_empty_names_the_exit_code() {
    assert_eq!(
        classify(exited(Some(2), "", "")),
        Err(CondaError::CommandFailed(owned("Command failed with exit code 2")))
    );
    assert_eq!(
        classify(exited(Some(127), "", "")),
        Err(CondaError::CommandFailed(owned("Command failed with exit code 127")))
    );
}

#[test]
fn failure_without_exit_code_shows_minus_one() {
    assert_eq!(
        classify(exited(None, "", "")),
        Err(CondaError::CommandFailed(owned("Command failed with exit code -1")))
    );
}

#[test]
fn failure_with_negative_exit_code() {
    assert_eq!(
        classify(exited(Some(-1073741819), "", "")),
        Err(CondaError::CommandFailed(owned("Command failed with exit code -1073741819")))
    );
    assert_eq!(
        classify(exited(Some(i32::MIN), "", "")),
        Err(CondaError::CommandFailed(owned("Command failed with exit code -2147483648")))
    );
    assert_eq!(
        classify(exited(Some(i32::MAX), "", "")),
        Err(CondaError::CommandFailed(owned("Command failed with exit code 2147483647")))
    );
}

#[test]
fn killed_by_signal_with_diagnostic() {
    assert_eq!(
        classify(exited(None, "", "Terminated")),
        Err(CondaError::CommandFailed(owned("Terminated")))
    );
}

#[test]
fn diagnostic_with_ill_formed_bytes_is_repaired() {
    let run = Invocation::Exited { code: Some(1), stdout: Vec::new(), stderr: vec![0x62, 0x61, 0x64, 0x20, 0xff] };
    assert_eq!(classify(run), Err(CondaError::CommandFailed(owned("bad \u{fffd}"))));
}

#[test]
fn not_found_on_error_stream_names_the_environment() {
    assert_eq!(
        packages_of("ghost").outcome(exited(Some(1), "", "EnvironmentLocationNotFound: environment not found: ghost")),
        Err(CondaError::EnvironmentNotFound(owned("ghost")))
    );
}

#[test]
fn not_found_carries_the_name_asked_for_not_the_message() {
    let outcome = packages_of("my env").outcome(exited(Some(1), "", "error: /x/y was not found\n"));
    assert_eq!(outcome, Err(CondaError::EnvironmentNotFound(owned("my env"))));
}

#[test]
fn not_found_on_output_stream_names_the_environment_too() {
    assert_eq!(
        packages_of("ghost").outcome(exited(Some(1), "environment not found", "")),
        Err(CondaError::EnvironmentNotFound(owned("ghost")))
    );
}

#[test]
fn not_found_does_not_change_the_environment_listing() {
    assert_eq!(
        Command::ListEnvs.outcome(exited(Some(1), "", "conda: not found")),
        Err(CondaError::CommandFailed(owned("conda: not found")))
    );
}

#[test]
fn marker_is_matched_letter_for_letter() {
    for text in ["Not Found", "NOT FOUND", "notfound", "not  found", "not\nfound", "not foun"] {
        assert_eq!(
            packages_of("ghost").outcome(exited(Some(1), "", text)),
            Err(CondaError::CommandFailed(owned(text)))
        );
    }
}

#[test]
fn diagnostic_without_the_marker_stays_a_failed_command() {
    let stderr = "EnvironmentLocationNotFound: could not find environment: ghost";
    assert_eq!(
        packages_of("ghost").outcome(exited(Some(1), "", stderr)),
        Err(CondaError::CommandFailed(owned(stderr)))
    );
}

#[test]
fn unknown_environment_is_reported_with_a_tip() {
    let stderr = "EnvironmentLocationNotFound: environment not found: ghost";
    let error = packages_of("ghost").outcome(exited(Some(1), "", stderr)).unwrap_err();
    assert_eq!(error.message(), "Conda environment 'ghost' not found");
    assert_eq!(
        error.report(true),
        vec![
            owned("Error: Conda environment 'ghost' not found"),
            owned("Tip: Run 'conda env list' to see available environment."),
        ]
    );
}

#[test]
fn for_environment_refines_only_failed_commands() {
    assert_eq!(
        for_environment("ghost", CondaError::CommandFailed(owned("x not found y"))),
        CondaError::EnvironmentNotFound(owned("ghost"))
    );
    assert_eq!(
        for_environment("ghost", CondaError::CommandFailed(owned("not found"))),
        CondaError::EnvironmentNotFound(owned("ghost"))
    );
    assert_eq!(
        for_environment("ghost", CondaError::CommandFailed(owned("missing"))),
        CondaError::CommandFailed(owned("missing"))
    );
    assert_eq!(
        for_environment("ghost", CondaError::ParseError(owned("key not found"))),
        CondaError::ParseError(owned("key not found"))
    );
    assert_eq!(
        for_environment("ghost", CondaError::EnvironmentNotFound(owned("other"))),
        CondaError::EnvironmentNotFound(owned("other"))
    );
    assert_eq!(for_environment("ghost", CondaError::NotInstalled), CondaError::NotInstalled);
    assert_eq!(
        for_environment("ghost", CondaError::IoError(owned("not found"))),
        CondaError::IoError(owned("not found"))
    );
}

#[test]
fn marker_in_a_text_with_wide_characters() {
    assert_eq!(
        for_environment("ghost", CondaError::CommandFailed(owned("\u{74b0}\u{5883} not found \u{2014}"))),
        CondaError::EnvironmentNotFound(owned("ghost"))
    );
}
