use upspin::{Event, Invocation, Run, Step, UpspinError, UpspinPath};

const NAME: &str = "augie@upspin.io/Images/Augie/small.jpg";

fn path() -> UpspinPath {
    NAME.parse().unwrap()
}

fn call(verb: &str, name: &str) -> Invocation {
    Invocation { program: "upspin".to_string(), arguments: vec![verb.to_string(), name.to_string()] }
}

fn exited(success: bool, output: &[u8]) -> Run {
    Run::Exited { success, output: output.to_vec() }
}

fn not_started(reason: &str) -> Run {
    Run::NotStarted(reason.to_string())
}

#[test]
fn info_call_names_the_full_path() {
    assert_eq!(path().info_call(), call("info", NAME));
}

#[test]
fn info_call_of_a_bare_owner() {
    let p: UpspinPath = "justanowner".parse().unwrap();
    assert_eq!(p.info_call(), call("info", "justanowner/"));
}

#[test]
fn public_when_the_program_succeeds_and_says_so() {
    assert!(path().is_public(&exited(true, b"\tcan read:      All augie@upspin.io\n")));
}

#[test]
fn not_public_when_the_program_is_absent() {
    assert!(!path().is_public(&not_started("No such file or directory (os error 2)")));
    assert!(!path().is_public(&not_started("")));
    assert!(!path().is_public(&not_started("can read: All")));
}

#[test]
fn not_public_when_the_program_fails() {
    assert!(!path().is_public(&exited(false, b"")));
    assert!(!path().is_public(&exited(false, b"\tcan read:      All augie@upspin.io\n")));
}

#[test]
fn not_public_when_the_program_says_otherwise() {
    assert!(!path().is_public(&exited(true, b"")));
    assert!(!path().is_public(&exited(true, b"\tcan read:      augie@upspin.io\n")));
    assert!(!path().is_public(&exited(true, b"\tcan read: me\n\tcan write: All\n")));
}

#[test]
fn not_public_when_the_output_is_no_text() {
    assert!(!path().is_public(&exited(true, b"\tcan read:      All \xff\n")));
    assert!(!path().is_public(&exited(true, b"\xfe\n\tcan read:      All\n")));
}

#[test]
fn download_begins_with_the_info_query() {
    assert_eq!(path().get(Event::Start), Step::Query(call("info", NAME)));
}

#[test]
fn public_answer_leads_to_file_creation() {
    let step = path().get(Event::Queried(exited(true, b"can read: All\n")));
    assert_eq!(step, Step::Create);
}

#[test]
fn other_answers_end_the_download_as_not_public() {
    let expected = Step::Done(Err(UpspinError::NotPublic(NAME.to_string())));
    assert_eq!(path().get(Event::Queried(exited(true, b"can read: augie\n"))), expected);
    assert_eq!(path().get(Event::Queried(exited(true, b"can read: All\xff\n"))), expected);
    assert_eq!(path().get(Event::Queried(exited(false, b"can read: All\n"))), expected);
    assert_eq!(path().get(Event::Queried(not_started("not found"))), expected);
}

#[test]
fn created_file_leads_to_the_get_call() {
    assert_eq!(path().get(Event::Created), Step::Fetch(call("get", NAME)));
}

#[test]
fn failed_creation_ends_the_download() {
    let step = path().get(Event::CreateFailed("Permission denied (os error 13)".to_string()));
    assert_eq!(
        step,
        Step::Done(Err(UpspinError::IOError("Permission denied (os error 13)".to_string())))
    );
}

#[test]
fn get_call_that_cannot_start_ends_the_download() {
    let step = path().get(Event::Fetched(not_started("No such file or directory (os error 2)")));
    assert_eq!(
        step,
        Step::Done(Err(UpspinError::InvocationError(
            "No such file or directory (os error 2)".to_string()
        )))
    );
}

#[test]
fn failing_get_call_ends_the_download() {
    assert_eq!(
        path().get(Event::Fetched(exited(false, b""))),
        Step::Done(Err(UpspinError::DownloadFailed))
    );
    assert_eq!(
        path().get(Event::Fetched(exited(false, b"can read: All"))),
        Step::Done(Err(UpspinError::DownloadFailed))
    );
}

#[test]
fn succeeding_get_call_ends_the_download_well() {
    assert_eq!(path().get(Event::Fetched(exited(true, b""))), Step::Done(Ok(())));
    assert_eq!(path().get(Event::Fetched(exited(true, b"bytes"))), Step::Done(Ok(())));
}

/// A stand-in for the program and the file system: says how each request ends, and keeps
/// the requests it was given.
struct World {
    info: Run,
    creation: Result<(), String>,
    fetch: Run,
    seen: Vec<String>,
}

fn copy(run: &Run) -> Run {
    match run {
        Run::NotStarted(reason) => Run::NotStarted(reason.clone()),
        Run::Exited { success, output } => Run::Exited { success: *success, output: output.clone() },
    }
}

fn download(p: &UpspinPath, world: &mut World) -> Result<(), UpspinError> {
    let mut step = p.get(Event::Start);
    for _ in 0..10 {
        let event = match step {
            Step::Query(call) => {
                world.seen.push(format!("query {}", call.arguments.join(" ")));
                Event::Queried(copy(&world.info))
            }
            Step::Create => {
                world.seen.push("create".to_string());
                match &world.creation {
                    Ok(()) => Event::Created,
                    Err(reason) => Event::CreateFailed(reason.clone()),
                }
            }
            Step::Fetch(call) => {
                world.seen.push(format!("fetch {}", call.arguments.join(" ")));
                Event::Fetched(copy(&world.fetch))
            }
            Step::Done(result) => return result,
        };
        step = p.get(event);
    }
    panic!("the download did not end");
}

fn world(info: Run, creation: Result<(), String>, fetch: Run) -> World {
    World { info, creation, fetch, seen: Vec::new() }
}

#[test]
fn whole_download_of_a_public_file() {
    let mut w = world(exited(true, b"can read: All\n"), Ok(()), exited(true, b""));
    assert_eq!(download(&path(), &mut w), Ok(()));
    assert_eq!(
        w.seen,
        vec![format!("query info {}", NAME), "create".to_string(), format!("fetch get {}", NAME)]
    );
}

#[test]
fn no_file_is_created_for_a_path_that_is_not_public() {
    for info in [
        exited(true, b"can read: augie\n"),
        exited(false, b"can read: All\n"),
        exited(true, b"can read: All\xff\n"),
        not_started("not found"),
    ] {
        let mut w = world(info, Ok(()), exited(true, b""));
        assert_eq!(download(&path(), &mut w), Err(UpspinError::NotPublic(NAME.to_string())));
        assert_eq!(w.seen, vec![format!("query info {}", NAME)]);
    }
}

#[test]
fn nothing_is_fetched_when_the_file_cannot_be_created() {
    let mut w =
        world(exited(true, b"can read: All\n"), Err("denied".to_string()), exited(true, b""));
    assert_eq!(download(&path(), &mut w), Err(UpspinError::IOError("denied".to_string())));
    assert_eq!(w.seen, vec![format!("query info {}", NAME), "create".to_string()]);
}

#[test]
fn whole_download_with_a_failing_get_call() {
    let mut w = world(exited(true, b"can read: All\n"), Ok(()), exited(false, b""));
    assert_eq!(download(&path(), &mut w), Err(UpspinError::DownloadFailed));
    assert_eq!(w.seen.len(), 3);
}

#[test]
fn whole_download_with_a_get_call_that_cannot_start() {
    let mut w = world(exited(true, b"can read: All\n"), Ok(()), not_started("gone"));
    assert_eq!(download(&path(), &mut w), Err(UpspinError::InvocationError("gone".to_string())));
    assert_eq!(w.seen.len(), 3);
}

#[test]
fn messages_of_the_errors() {
    assert_eq!(
        UpspinError::NotPublic(NAME.to_string()).message(),
        "Path augie@upspin.io/Images/Augie/small.jpg is not public"
    );
    assert_eq!(
        UpspinError::IOError("Permission denied (os error 13)".to_string()).message(),
        "Could not create output file: Permission denied (os error 13)"
    );
    assert_eq!(
        UpspinError::InvocationError("No such file or directory (os error 2)".to_string())
            .message(),
        "Could not download: No such file or directory (os error 2)"
    );
    assert_eq!(UpspinError::DownloadFailed.message(), "Could not download");
    assert_eq!(UpspinError::ParseError.message(), "Could not parse path");
}

#[test]
fn messages_with_empty_texts() {
    assert_eq!(UpspinError::NotPublic(String::new()).message(), "Path  is not public");
    assert_eq!(UpspinError::IOError(String::new()).message(), "Could not create output file: ");
    assert_eq!(UpspinError::InvocationError(String::new()).message(), "Could not download: ");
}
