use cdk_scaffold::error::RemoteSource;
use cdk_scaffold::error::ScaffoldError;
use cdk_scaffold::remote::biome_url;
use cdk_scaffold::remote::tsconfig_url;
use cdk_scaffold::remote::url_of;
use cdk_scaffold::workflow::apply_event;
use cdk_scaffold::workflow::exit_code;
use cdk_scaffold::workflow::interpret_install;
use cdk_scaffold::workflow::next_action;
use cdk_scaffold::workflow::Action;
use cdk_scaffold::workflow::Event;
use cdk_scaffold::workflow::Phase;

fn b(s: &str) -> Vec<u8> {
    s.as_bytes().to_vec()
}

#[test]
fn happy_path_reaches_done_with_install() {
    let mut phase = Phase::Start;
    assert!(matches!(next_action(phase, false), Some(Action::ValidateName)));
    phase = apply_event(phase, Event::NameAccepted);
    assert!(matches!(next_action(phase, false), Some(Action::CreateDirectories)));
    phase = apply_event(phase, Event::DirectoriesMade);
    assert!(matches!(next_action(phase, false), Some(Action::LoadTemplates)));
    phase = apply_event(phase, Event::TemplatesResolved);
    assert!(matches!(next_action(phase, false), Some(Action::WriteFiles)));
    phase = apply_event(phase, Event::FilesSaved);
    assert!(matches!(next_action(phase, false), Some(Action::RunInstaller)));
    phase = apply_event(phase, Event::InstallSucceeded);
    assert!(matches!(phase, Phase::Done));
    assert_eq!(exit_code(phase), 0);
}

#[test]
fn skipping_install_never_asks_for_the_installer() {
    let phases = [
        Phase::Start,
        Phase::NameValidated,
        Phase::DirectoriesCreated,
        Phase::TemplatesLoaded,
        Phase::FilesWritten,
        Phase::Done,
        Phase::Failed,
    ];
    for phase in phases {
        assert!(!matches!(next_action(phase, true), Some(Action::RunInstaller)));
    }
}

#[test]
fn skipping_install_exits_zero_after_files_are_written() {
    let mut phase = Phase::Start;
    phase = apply_event(phase, Event::NameAccepted);
    phase = apply_event(phase, Event::DirectoriesMade);
    phase = apply_event(phase, Event::TemplatesResolved);
    phase = apply_event(phase, Event::FilesSaved);
    assert!(next_action(phase, true).is_none());
    phase = apply_event(phase, Event::InstallSkipped);
    assert!(matches!(phase, Phase::Done));
    assert_eq!(exit_code(phase), 0);
}

#[test]
fn fetch_failure_never_reaches_the_write_action() {
    let mut phase = Phase::Start;
    phase = apply_event(phase, Event::NameAccepted);
    phase = apply_event(phase, Event::DirectoriesMade);
    phase = apply_event(phase, Event::TemplatesFailed);
    assert!(matches!(phase, Phase::Failed));
    assert!(next_action(phase, false).is_none());
    // Whatever happens next, the workflow stays failed.
    phase = apply_event(phase, Event::FilesSaved);
    assert!(matches!(phase, Phase::Failed));
    assert_eq!(exit_code(phase), 1);
}

#[test]
fn install_failure_exits_nonzero_without_touching_files() {
    let mut phase = Phase::Start;
    phase = apply_event(phase, Event::NameAccepted);
    phase = apply_event(phase, Event::DirectoriesMade);
    phase = apply_event(phase, Event::TemplatesResolved);
    phase = apply_event(phase, Event::FilesSaved);
    phase = apply_event(phase, Event::InstallFailed);
    assert!(matches!(phase, Phase::Failed));
    assert_eq!(exit_code(phase), 1);
    // Nothing further is asked for: the written files stay as they are.
    assert!(next_action(phase, false).is_none());
    assert!(next_action(phase, true).is_none());
}

#[test]
fn rejected_name_fails_immediately() {
    let phase = apply_event(Phase::Start, Event::NameRejected);
    assert!(matches!(phase, Phase::Failed));
    assert_eq!(exit_code(phase), 1);
}

#[test]
fn install_interpretation_matches_the_subprocess_outcome() {
    assert!(interpret_install(true, 0, Vec::new()).is_ok());
    match interpret_install(true, 7, b("npm ERR! boom")) {
        Err(ScaffoldError::InstallError { code, stderr }) => {
            assert_eq!(code, Some(7));
            assert_eq!(stderr, b("npm ERR! boom"));
        },
        _ => panic!("expected an install error"),
    }
    match interpret_install(false, 0, b("npm: not found")) {
        Err(ScaffoldError::InstallError { code, stderr }) => {
            assert_eq!(code, None);
            assert_eq!(stderr, b("npm: not found"));
        },
        _ => panic!("expected an install error"),
    }
}

#[test]
fn install_error_label_names_the_stage() {
    let e = ScaffoldError::InstallError { code: Some(1), stderr: Vec::new() };
    assert_eq!(e.label(), "dependency installation failed");
    let p = ScaffoldError::PackagingError { asset: b("binfile.ts") };
    assert_eq!(p.label(), "embedded template asset missing");
    let f = ScaffoldError::FilesystemError { path: b("./x"), detail: b("denied") };
    assert_eq!(f.label(), "filesystem operation failed");
    let r = ScaffoldError::RemoteFetchError {
        source: RemoteSource::TsConfig,
        detail: b("status 500"),
    };
    assert_eq!(r.label(), "remote configuration fetch failed");
}

#[test]
fn remote_urls_are_the_fixed_gists() {
    assert!(tsconfig_url().starts_with("https://gist.github.com/dreamorosi/"));
    assert!(tsconfig_url().ends_with("tsconfig.json"));
    assert!(biome_url().starts_with("https://gist.github.com/dreamorosi/"));
    assert!(biome_url().ends_with("biome.json"));
    assert_eq!(url_of(&RemoteSource::TsConfig), tsconfig_url());
    assert_eq!(url_of(&RemoteSource::BiomeConfig), biome_url());
}
