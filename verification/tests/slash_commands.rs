use agent_core::clock::Timestamp;
use agent_core::paths::PathPart;
use agent_core::slash_commands::command::Command;
use agent_core::slash_commands::command_line::parse_command_line;
use agent_core::slash_commands::context::InterpolationContext;
use agent_core::slash_commands::discovery::{reload_from, scan_files, CommandFile};
use agent_core::slash_commands::errors::SlashCommandError;
use agent_core::slash_commands::interpolation::interpolate_template;
use agent_core::slash_commands::metadata::FrontmatterMetadata;
use agent_core::slash_commands::parsing::{
    parse_template, split_template, ParsedTemplate, RawFrontmatter,
};
use agent_core::slash_commands::performance::LoadCounter;
use agent_core::slash_commands::registry::{CommandLookup, CommandRegistry};
use agent_core::slash_commands::scope::CommandScope;
use agent_core::slash_commands::service::{resolve, InvocationError};

fn make_command(scope: CommandScope, namespace: &[&str], name: &str) -> Command {
    Command {
        scope,
        namespace: namespace.iter().map(|s| s.to_string()).collect(),
        name: name.to_string(),
        metadata: FrontmatterMetadata {
            description: Some(format!("{scope:?}:{name}")),
            argument_hint: None,
            model: None,
            allowed_tools: None,
        },
        body: format!("{name} body"),
        path: format!("/{scope:?}/{name}.md"),
    }
}

fn text_field(value: &serde_yaml::Value, key: &str) -> Result<Option<String>, String> {
    match value.get(key) {
        None => Ok(None),
        Some(serde_yaml::Value::Null) => Ok(None),
        Some(serde_yaml::Value::String(s)) => Ok(Some(s.clone())),
        Some(other) => Err(format!("{key}: expected a string, found {other:?}")),
    }
}

fn list_field(value: &serde_yaml::Value, key: &str) -> Result<Option<Vec<String>>, String> {
    match value.get(key) {
        None => Ok(None),
        Some(serde_yaml::Value::Null) => Ok(None),
        Some(serde_yaml::Value::Sequence(items)) => {
            let mut out = Vec::new();
            for item in items {
                match item {
                    serde_yaml::Value::String(s) => out.push(s.clone()),
                    other => return Err(format!("{key}: expected a string, found {other:?}")),
                }
            }
            Ok(Some(out))
        }
        Some(other) => Err(format!("{key}: expected a list, found {other:?}")),
    }
}

fn decode_front_matter(raw: &str) -> Result<RawFrontmatter, String> {
    let front = match split_template(raw) {
        Ok(Some((front, _))) => front,
        _ => return Ok(RawFrontmatter::default()),
    };
    let value: serde_yaml::Value = serde_yaml::from_str(&front).map_err(|e| e.to_string())?;
    if !value.is_mapping() {
        return Err("front matter is not a mapping".to_string());
    }
    Ok(RawFrontmatter {
        description: text_field(&value, "description")?,
        argument_hint: text_field(&value, "argument_hint")?,
        model: text_field(&value, "model")?,
        allowed_tools: list_field(&value, "allowed_tools")?,
    })
}

fn parse(raw: &str) -> Result<ParsedTemplate, SlashCommandError> {
    parse_template(raw, &decode_front_matter(raw))
}

fn command_file(path: &str, namespace: &[&str], stem: &str, contents: &str) -> CommandFile {
    CommandFile {
        path: path.to_string(),
        extension: Some("md".to_string()),
        stem: Some(stem.to_string()),
        namespace_parts: namespace.iter().map(|s| PathPart::Normal(s.to_string())).collect(),
        contents: contents.to_string(),
        front_matter: decode_front_matter(contents),
    }
}

#[test]
fn inserts_and_looks_up_by_full_name() {
    let mut registry = CommandRegistry::new();
    let command = make_command(CommandScope::Project, &["web"], "deploy");
    registry
        .insert(command.clone())
        .expect("expected insert to succeed");

    match registry.lookup("project:web:deploy") {
        CommandLookup::Command(found) => {
            assert_eq!(found, command);
            assert_eq!(found.full_name(), "project:web:deploy");
        }
        other => panic!("unexpected lookup result: {other:?}"),
    }
}

#[test]
fn detects_ambiguous_unqualified_names() {
    let mut registry = CommandRegistry::new();
    registry
        .insert(make_command(CommandScope::Project, &[], "deploy"))
        .expect("expected insert to succeed");
    registry
        .insert(make_command(CommandScope::User, &[], "deploy"))
        .expect("expected insert to succeed");

    match registry.lookup("deploy") {
        CommandLookup::Ambiguous { matches: names } => {
            assert_eq!(names.len(), 2);
            assert!(names.contains(&"project:deploy".to_string()));
            assert!(names.contains(&"user:deploy".to_string()));
        }
        other => panic!("unexpected lookup result: {other:?}"),
    }
}

#[test]
fn returns_suggestions_for_missing_command() {
    let mut registry = CommandRegistry::new();
    registry
        .insert(make_command(CommandScope::Project, &["ops"], "deploy-prod"))
        .expect("expected insert");

    match registry.lookup("project:ops:deploy") {
        CommandLookup::NotFound { suggestions } => {
            assert!(suggestions.iter().any(|s| s.contains("deploy")));
        }
        other => panic!("unexpected lookup result: {other:?}"),
    }
}

#[test]
fn rejects_duplicate_fully_qualified_commands() {
    let mut registry = CommandRegistry::new();
    let first = make_command(CommandScope::Project, &[], "status");
    registry
        .insert(first.clone())
        .expect("expected insert to succeed");
    let err = registry
        .insert(first)
        .expect_err("expected duplicate insert to fail");
    assert!(matches!(err, SlashCommandError::DuplicateCommand { .. }));
}

#[test]
fn interpolation_preserves_literal_security_sensitive_tokens() {
    let template = "!bash echo hello\n@file README.md\n$1";
    let ctx = InterpolationContext::new(vec!["ok".to_string()]);
    let interpolated =
        interpolate_template(template, &ctx).expect("expected interpolation to succeed");
    assert!(interpolated.contains("!bash echo hello"));
    assert!(interpolated.contains("@file README.md"));
    assert!(interpolated.ends_with("ok"));
}

#[test]
fn interpolation_does_not_execute_commands() {
    let template = "!bash rm -rf /\n$ARGUMENTS";
    let ctx = InterpolationContext::new(vec!["--dry-run".to_string()]);
    let interpolated =
        interpolate_template(template, &ctx).expect("expected interpolation to succeed");
    assert_eq!(interpolated.lines().next().unwrap(), "!bash rm -rf /");
}

#[test]
fn replaces_arguments_tokens_and_positionals() {
    let template = "Deploy $1 to $2 using $ARGUMENTS";
    let ctx = InterpolationContext::new(vec!["web".to_string(), "prod".to_string()]);
    let interpolated =
        interpolate_template(template, &ctx).expect("expected interpolation to succeed");
    assert_eq!(interpolated, "Deploy web to prod using web prod");
}

#[test]
fn missing_positionals_become_empty_strings() {
    let template = "Review $1 then $3";
    let ctx = InterpolationContext::new(vec!["first".to_string()]);
    let interpolated =
        interpolate_template(template, &ctx).expect("expected interpolation to succeed");
    assert_eq!(interpolated, "Review first then ");
}

#[test]
fn positional_index_too_large_is_an_error() {
    let ctx = InterpolationContext::new(vec!["a".to_string()]);
    let err = interpolate_template("$99999999999999999999999", &ctx)
        .expect_err("expected interpolation to fail");
    assert_eq!(
        err,
        SlashCommandError::Interpolation(
            "invalid positional index '99999999999999999999999': number too large to fit in target type"
                .to_string()
        )
    );
    assert_eq!(
        err.message(),
        "interpolation error: invalid positional index '99999999999999999999999': number too large to fit in target type"
    );
}

#[test]
fn dollar_zero_and_lone_dollar_stay() {
    let ctx = InterpolationContext::new(vec!["a".to_string()]);
    assert_eq!(interpolate_template("cost $0 and $", &ctx).unwrap(), "cost  and $");
    assert_eq!(interpolate_template("$ARGUMENT", &ctx).unwrap(), "$ARGUMENT");
}

#[test]
fn parses_basic_command_line() {
    let (command, args) = parse_command_line("/deploy foo bar").expect("expected parse");
    assert_eq!(command, "deploy");
    assert_eq!(args, vec!["foo".to_string(), "bar".to_string()]);
}

#[test]
fn parses_quoted_arguments() {
    let (command, args) =
        parse_command_line("/deploy \"feature branch\" --force").expect("expected parse");
    assert_eq!(command, "deploy");
    assert_eq!(
        args,
        vec!["feature branch".to_string(), "--force".to_string()]
    );
}

#[test]
fn non_commands_return_none() {
    assert!(parse_command_line("hello world").is_none());
    assert!(parse_command_line(" / ").is_none());
}

#[test]
fn trims_leading_whitespace() {
    let (command, args) = parse_command_line("  /status   ").expect("expected parse");
    assert_eq!(command, "status");
    assert!(args.is_empty());
}

#[test]
fn unfinished_quotation_is_dropped() {
    let (command, args) = parse_command_line("/deploy \"unfinished").expect("expected parse");
    assert_eq!(command, "deploy");
    assert!(args.is_empty());
}

#[test]
fn parses_frontmatter_metadata_and_body() {
    let raw = r#"---
        description: Deploy the project
        argument_hint: "<env>"
        model: gpt-4o
        ---
        Deploy $ARGUMENTS to production
    "#;

    let ParsedTemplate { metadata, body } = parse(raw).expect("expected template to parse");

    assert_eq!(metadata.description.as_deref(), Some("Deploy the project"));
    assert_eq!(metadata.argument_hint.as_deref(), Some("<env>"));
    assert_eq!(metadata.model.as_deref(), Some("gpt-4o"));
    assert_eq!(body.trim(), "Deploy $ARGUMENTS to production");
}

#[test]
fn invalid_frontmatter_is_reported() {
    let raw = "---\n: -not-valid yaml\n---\nbody";
    let error = parse(raw).expect_err("expected template parsing to fail");

    match error {
        SlashCommandError::InvalidTemplate(message) => {
            assert!(
                message.contains("failed to parse frontmatter"),
                "unexpected error message: {message}"
            );
        }
        other => panic!("unexpected error: {other:?}"),
    }
}

#[test]
fn preserves_leading_whitespace_without_frontmatter() {
    let raw = "    echo $ARGUMENTS";

    let ParsedTemplate { metadata, body } = parse(raw).expect("expected template to parse");

    assert_eq!(metadata, FrontmatterMetadata::default());
    assert_eq!(body, raw);
}

#[test]
fn parses_allowed_tools_list() {
    let raw = r#"---
allowed_tools:
  - git
  -   shell  
---
body
"#;

    let ParsedTemplate { metadata, body } = parse(raw).expect("expected template to parse");

    assert_eq!(
        metadata.allowed_tools,
        Some(vec!["git".to_string(), "shell".to_string()])
    );
    assert_eq!(body, "body");
}

#[test]
fn unterminated_frontmatter_is_an_error() {
    let error = parse("---\ndescription: x\nbody").expect_err("expected an error");
    assert!(matches!(error, SlashCommandError::InvalidTemplate(_)));
}

#[test]
fn end_to_end_invocation_applies_model_override() {
    let command_body = r#"---
model: gpt-4o
argument_hint: "<branch>"
---
Deploy $1 to production using $ARGUMENTS
"#;
    let files = vec![command_file("/project/ops/deploy.md", &["ops"], "deploy", command_body)];
    let mut registry = CommandRegistry::new();
    let mut counter = LoadCounter { count: 0 };
    let loaded = reload_from(
        &mut registry,
        &mut counter,
        &files,
        &Vec::new(),
        Timestamp { millis: 1_700_000_000_000 },
    )
    .expect("expected registry to load");
    assert_eq!(loaded, 1);
    assert_eq!(counter.count, 1);
    assert_eq!(registry.last_loaded(), Some(Timestamp { millis: 1_700_000_000_000 }));

    let command = match registry.lookup("project:ops:deploy") {
        CommandLookup::Command(cmd) => cmd,
        other => panic!("unexpected lookup result: {other:?}"),
    };

    assert_eq!(command.scope, CommandScope::Project);
    assert_eq!(command.metadata.model.as_deref(), Some("gpt-4o"));
    assert_eq!(command.metadata.argument_hint.as_deref(), Some("<branch>"));

    let prompt = interpolate_template(
        &command.body,
        &InterpolationContext::new(vec!["feature/login".to_string(), "extra".to_string()]),
    )
    .expect("expected interpolation to succeed");

    assert_eq!(
        prompt.trim(),
        "Deploy feature/login to production using feature/login extra"
    );
}

#[test]
fn loads_commands_from_user_and_project_directories() {
    let project = vec![command_file(
        "/project/web/deploy.md",
        &["web"],
        "deploy",
        "---\ndescription: Deploy web\n---\nDeploy $ARGUMENTS",
    )];
    let user = vec![command_file(
        "/user/notes.md",
        &[],
        "notes",
        "---\ndescription: Notes\n---\nRemember $1",
    )];
    let mut registry = CommandRegistry::new();
    let mut counter = LoadCounter { count: 0 };
    let loaded = reload_from(&mut registry, &mut counter, &project, &user, Timestamp { millis: 5 })
        .expect("expected registry to load");
    assert_eq!(loaded, 2);

    let project = match registry.lookup("project:web:deploy") {
        CommandLookup::Command(cmd) => cmd,
        other => panic!("unexpected lookup result: {other:?}"),
    };
    assert_eq!(project.scope, CommandScope::Project);
    assert_eq!(project.namespace, vec!["web".to_string()]);

    let user = match registry.lookup("user:notes") {
        CommandLookup::Command(cmd) => cmd,
        other => panic!("unexpected lookup result: {other:?}"),
    };
    assert_eq!(user.scope, CommandScope::User);

    match registry.lookup("notes") {
        CommandLookup::Command(cmd) => {
            assert_eq!(cmd.name, "notes");
            assert_eq!(cmd.full_name(), "user:notes");
        }
        other => panic!("unexpected lookup result: {other:?}"),
    }
}

#[test]
fn scan_skips_other_files_and_stops_at_duplicates() {
    let mut readme = command_file("/project/README.txt", &[], "README", "text");
    readme.extension = Some("txt".to_string());
    let files = vec![
        readme,
        command_file("/project/a.md", &[], "a", "A"),
        command_file("/project/x/../a.md", &[], "a", "A again"),
        command_file("/project/b.md", &[], "b", "B"),
    ];
    let mut registry = CommandRegistry::new();
    let err = scan_files(&mut registry, CommandScope::Project, &files).expect_err("duplicate");
    assert_eq!(err, SlashCommandError::DuplicateCommand { name: "project:a".to_string() });
    assert_eq!(registry.all().len(), 1);
}

#[test]
fn scan_refuses_namespace_with_parent_step() {
    let mut file = command_file("/project/../a.md", &[], "a", "A");
    file.namespace_parts = vec![PathPart::ParentDir];
    let mut registry = CommandRegistry::new();
    let err = scan_files(&mut registry, CommandScope::User, &vec![file]).expect_err("namespace");
    assert_eq!(err, SlashCommandError::InvalidNamespace { component: "..".to_string() });
}

#[test]
fn all_lists_commands_by_full_name() {
    let mut registry = CommandRegistry::new();
    registry.insert(make_command(CommandScope::User, &[], "zeta")).unwrap();
    registry.insert(make_command(CommandScope::Project, &["ops"], "deploy")).unwrap();
    registry.insert(make_command(CommandScope::Project, &[], "alpha")).unwrap();
    let names: Vec<String> = registry.all().iter().map(|c| c.full_name()).collect();
    assert_eq!(names, vec!["project:alpha", "project:ops:deploy", "user:zeta"]);
}

#[test]
fn resolve_fills_the_template_in() {
    let mut registry = CommandRegistry::new();
    let mut command = make_command(CommandScope::Project, &[], "greet");
    command.body = "Hello $1, all: $ARGUMENTS".to_string();
    registry.insert(command).unwrap();

    let invocation = resolve(&registry, "  /greet world again ").expect("expected an invocation");
    assert_eq!(invocation.rendered_body, "Hello world, all: world again");
    assert_eq!(invocation.command.name, "greet");

    assert_eq!(resolve(&registry, "plain text").unwrap_err(), InvocationError::NotCommand);
    match resolve(&registry, "/gre").unwrap_err() {
        InvocationError::NotFound { name, suggestions } => {
            assert_eq!(name, "gre");
            assert_eq!(suggestions, vec!["project:greet".to_string()]);
        }
        other => panic!("unexpected: {other:?}"),
    }
}
