use config_chain::{
    resolve, AnyHandler, ArgHandler, DefaultHandler, EnvHandler, FileHandler, Handler,
    JSONFileHandler, Outcome, Request,
};

/// The state outside the program, as a test sets it up.
struct Outside {
    variables: Vec<(String, String)>,
    files: Vec<(String, String)>,
}

impl Outside {
    fn empty() -> Self {
        Outside { variables: Vec::new(), files: Vec::new() }
    }

    fn variable(name: &str, value: &str) -> Self {
        Outside { variables: vec![(name.to_string(), value.to_string())], files: Vec::new() }
    }

    fn file(path: &str, content: &str) -> Self {
        Outside { variables: Vec::new(), files: vec![(path.to_string(), content.to_string())] }
    }

    fn answer(&self, request: &Request) -> Option<String> {
        let (table, wanted) = match request {
            Request::Variable { name } => (&self.variables, name),
            Request::PlainFile { path } => (&self.files, path),
            Request::JsonFile { path } => (&self.files, path),
        };
        table.iter().find(|(name, _)| name == wanted).map(|(_, value)| value.clone())
    }

    fn request(&self, handler: &impl Handler, key: &str) -> Option<String> {
        resolve(handler, key, |request: &Request| self.answer(request))
    }
}

fn default_link(value: &str) -> Option<Box<AnyHandler<'static>>> {
    Some(Box::new(AnyHandler::Default(DefaultHandler::new(value))))
}

#[test]
fn test_retrieves_set_value() {
    let handler = DefaultHandler::new("TEST_VAL");
    let actual = Outside::empty().request(&handler, "");
    assert_eq!(actual, Some("TEST_VAL".to_string()));
}

#[test]
fn default_handler_answers_at_once() {
    let handler = DefaultHandler::new("TEST_VAL");
    assert!(matches!(handler.handle_request("anything"), Outcome::Resolved(Some(v)) if v == "TEST_VAL"));
}

#[test]
fn env_handler_test_retrieves_set_value() {
    let outside = Outside::variable("TEST_KEY", "test_value");
    let handler = EnvHandler::new(None);
    let actual = outside.request(&handler, "TEST_KEY");
    assert_eq!(actual, Some("test_value".to_string()));
}

#[test]
fn cli_test_returns_none_for_unset_value() {
    let outside = Outside::empty();
    let handler = EnvHandler::new(None);
    let actual = outside.request(&handler, "UNSET_KEY");
    assert_eq!(actual, None);
}

#[test]
fn env_handler_test_next_handler_called() {
    let outside = Outside::empty();
    let handler = EnvHandler::new(default_link("DEFAULT_VALUE"));
    let actual = outside.request(&handler, "UNSET_KEY");
    assert_eq!(actual, Some("DEFAULT_VALUE".to_string()));
}

#[test]
fn env_handler_asks_for_prefixed_name() {
    let handler = EnvHandler::new(default_link("info")).prefix("FIXME_");
    let outcome = handler.handle_request("verbosity");
    match &outcome {
        Outcome::Pending { request: Request::Variable { name }, rest } => {
            assert_eq!(name, "FIXME_verbosity");
            assert!(rest.is_some());
        }
        _ => panic!("an environment handler asks for a variable"),
    }
    let unset = outcome.resume("verbosity", None);
    assert!(matches!(unset, Outcome::Resolved(Some(v)) if v == "info"));
}

#[test]
fn env_handler_without_prefix_asks_for_key() {
    let handler = EnvHandler::new(None);
    match handler.handle_request("verbosity") {
        Outcome::Pending { request: Request::Variable { name }, rest } => {
            assert_eq!(name, "verbosity");
            assert!(rest.is_none());
        }
        _ => panic!("an environment handler asks for a variable"),
    }
}

#[test]
fn env_handler_empty_value_counts_as_found() {
    let handler = EnvHandler::new(default_link("DEFAULT_VALUE"));
    let outcome = handler.handle_request("EMPTY").resume("EMPTY", Some(String::new()));
    assert!(matches!(outcome, Outcome::Resolved(Some(v)) if v.is_empty()));
}

#[test]
fn arg_handler_test_retrieves_set_value() {
    let args = clap::Command::new("test_app")
        .arg(clap::Arg::new("example").long("example"))
        .get_matches_from(vec!["test_app", "--example", "test_value"]);

    let handler = ArgHandler::new(&args, None);
    let result = Outside::empty().request(&handler, "example");
    assert_eq!(result, Some("test_value".to_string()));
}

#[test]
fn test_returns_none_for_unset_value() {
    let args = clap::Command::new("test_app")
        .arg(clap::Arg::new("example").long("example"))
        .get_matches_from(vec!["test_app"]);

    let handler = ArgHandler::new(&args, None);
    let result = Outside::empty().request(&handler, "example");
    assert_eq!(result, None);
}

#[test]
fn arg_handler_test_next_handler_called() {
    let args = clap::Command::new("test_app")
        .arg(clap::Arg::new("example").long("example"))
        .get_matches_from(vec!["test_app"]);
    let handler = ArgHandler::new(&args, default_link("DEFAULT_VALUE"));
    let actual = Outside::empty().request(&handler, "example");
    assert_eq!(actual, Some("DEFAULT_VALUE".to_string()));
}

#[test]
fn arg_handler_unknown_name_goes_on() {
    let args = clap::Command::new("test_app")
        .arg(clap::Arg::new("example").long("example"))
        .get_matches_from(vec!["test_app", "--example", "test_value"]);
    let handler = ArgHandler::new(&args, default_link("DEFAULT_VALUE"));
    let actual = Outside::empty().request(&handler, "verbosity");
    assert_eq!(actual, Some("DEFAULT_VALUE".to_string()));
}

#[test]
fn arg_handler_answers_before_what_follows() {
    let args = clap::Command::new("test_app")
        .arg(clap::Arg::new("example").long("example"))
        .get_matches_from(vec!["test_app", "--example", "test_value"]);
    let handler = ArgHandler::new(&args, default_link("DEFAULT_VALUE"));
    assert!(matches!(handler.handle_request("example"), Outcome::Resolved(Some(v)) if v == "test_value"));
}

#[test]
fn cli_test_retrieves_set_value() {
    let outside = Outside::file("/tmp/chain_test_file", "test_content\n");

    let handler = FileHandler::new("/tmp/chain_test_file", None);
    let result = outside.request(&handler, "");
    assert_eq!(result, Some("test_content\n".to_string()));
}

#[test]
fn test_returns_none_for_nonexistent_file() {
    let handler = FileHandler::new("", None);
    let result = Outside::empty().request(&handler, "example");
    assert_eq!(result, None);
}

#[test]
fn test_next_handler_called() {
    let handler = FileHandler::new("", default_link("DEFAULT_VALUE"));
    let actual = Outside::empty().request(&handler, "example");
    assert_eq!(actual, Some("DEFAULT_VALUE".to_string()));
}

#[test]
fn file_handler_asks_for_its_path() {
    let handler = FileHandler::new("/etc/app/verbosity", None);
    match handler.handle_request("ignored") {
        Outcome::Pending { request: Request::PlainFile { path }, rest } => {
            assert_eq!(path, "/etc/app/verbosity");
            assert!(rest.is_none());
        }
        _ => panic!("a file handler asks for a file"),
    }
}

#[test]
fn test_retrieves_set_value_number() {
    let outside = Outside::file("/tmp/chain_test_file", "{\"test_key\": 123}\n");

    let handler = JSONFileHandler::new("/tmp/chain_test_file", None);
    let actual = outside.request(&handler, "test_key");
    assert_eq!(actual, Some("123".to_string()));
}

#[test]
fn test_retrieves_set_value_string() {
    let outside = Outside::file("/tmp/chain_test_file", "{\"test_key\": \"example\"}\n");

    let handler = JSONFileHandler::new("/tmp/chain_test_file", None);
    let actual = outside.request(&handler, "test_key");
    assert_eq!(actual, Some("example".to_string()));
}

#[test]
fn test_retrieves_set_value_nested_object() {
    let outside = Outside::file("/tmp/chain_test_file", "{\"test_obj\": {\"test_key\": \"example\"} }\n");

    let handler = JSONFileHandler::new("/tmp/chain_test_file", None);
    let actual = outside.request(&handler, "test_key");
    assert_eq!(actual, Some("example".to_string()));
}

#[test]
fn test_retrieves_set_value_in_array() {
    let outside = Outside::file("/tmp/chain_test_file", "[{\"test_key\": \"example\"}]\n");

    let handler = JSONFileHandler::new("/tmp/chain_test_file", None);
    let actual = outside.request(&handler, "test_key");
    assert_eq!(actual, Some("example".to_string()));
}

#[test]
fn cli_test_returns_none_for_nonexistent_file() {
    let handler = JSONFileHandler::new("", None);
    let result = Outside::empty().request(&handler, "example");
    assert_eq!(result, None);
}

#[test]
fn cli_test_next_handler_called() {
    let handler = JSONFileHandler::new("", default_link("DEFAULT_VALUE"));
    let actual = Outside::empty().request(&handler, "example");
    assert_eq!(actual, Some("DEFAULT_VALUE".to_string()));
}

#[test]
fn json_handler_asks_for_its_path() {
    let handler = JSONFileHandler::new("settings.json", default_link("info"));
    match handler.handle_request("verbosity") {
        Outcome::Pending { request: Request::JsonFile { path }, rest } => {
            assert_eq!(path, "settings.json");
            assert!(rest.is_some());
        }
        _ => panic!("a JSON file handler asks for a file"),
    }
}

#[test]
fn json_handler_goes_on_when_text_does_not_parse() {
    let handler = JSONFileHandler::new("settings.json", default_link("DEFAULT_VALUE"));
    let outcome = handler.handle_request("key").resume("key", Some("{not json".to_string()));
    assert!(matches!(outcome, Outcome::Resolved(Some(v)) if v == "DEFAULT_VALUE"));
}

#[test]
fn json_handler_goes_on_when_key_is_missing() {
    let text = "{\"other\": {\"deeper\": [1, 2, 3]}}";
    let with_next = JSONFileHandler::new("settings.json", default_link("DEFAULT_VALUE"));
    let outcome = with_next.handle_request("key").resume("key", Some(text.to_string()));
    assert!(matches!(outcome, Outcome::Resolved(Some(v)) if v == "DEFAULT_VALUE"));

    let alone = JSONFileHandler::new("settings.json", None);
    let outcome = alone.handle_request("key").resume("key", Some(text.to_string()));
    assert!(matches!(outcome, Outcome::Resolved(None)));
}

#[test]
fn resolved_outcome_stays_resolved() {
    let handler = DefaultHandler::new("TEST_VAL");
    let outcome = handler.handle_request("k").resume("k", Some("late".to_string()));
    assert!(matches!(outcome, Outcome::Resolved(Some(v)) if v == "TEST_VAL"));
}

#[test]
fn chain_stops_at_each_asking_handler_in_turn() {
    let args = clap::Command::new("test_app")
        .arg(clap::Arg::new("verbosity").long("verbosity"))
        .get_matches_from(vec!["test_app"]);
    let file = AnyHandler::File(FileHandler::new("/nonexistent/verbosity", default_link("info")));
    let env = AnyHandler::Environment(EnvHandler::new(Some(Box::new(file))).prefix("FIXME_"));
    let chain = ArgHandler::new(&args, Some(Box::new(env)));

    let first = chain.handle_request("verbosity");
    assert!(matches!(&first, Outcome::Pending { request: Request::Variable { name }, .. } if name == "FIXME_verbosity"));
    let second = first.resume("verbosity", None);
    assert!(matches!(&second, Outcome::Pending { request: Request::PlainFile { path }, .. } if path == "/nonexistent/verbosity"));
    let third = second.resume("verbosity", None);
    assert!(matches!(third, Outcome::Resolved(Some(v)) if v == "info"));
}

#[test]
fn a_value_ends_the_resolution_and_none_hands_on() {
    let next = AnyHandler::Default(DefaultHandler::new("DEFAULT_VALUE"));
    let own = Outcome::answer_or_go_on(Some("own".to_string()), Some(&next), "key");
    assert!(matches!(own, Outcome::Resolved(Some(v)) if v == "own"));
    let handed_on = Outcome::answer_or_go_on(None, Some(&next), "key");
    assert!(matches!(handed_on, Outcome::Resolved(Some(v)) if v == "DEFAULT_VALUE"));
    let nothing = Outcome::answer_or_go_on(None, None, "key");
    assert!(matches!(nothing, Outcome::Resolved(None)));
    let asking = AnyHandler::File(FileHandler::new("verbosity", None));
    let pending = Outcome::answer_or_go_on(None, Some(&asking), "key");
    assert!(matches!(pending, Outcome::Pending { request: Request::PlainFile { .. }, rest: None }));
}
