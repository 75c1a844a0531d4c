use gba_core::agent::{join_text_blocks, turn_count, AgentRunner};
use gba_core::cli::{App, Cli, Commands};
use gba_core::config::{
    build_engine_config, join_path, EngineConfig, GitConfig, HooksConfig, PermissionMode,
    ProjectConfig, ReviewConfig, VerificationConfig,
};
use gba_core::engine::Engine;
use gba_core::session::Session;

#[test]
fn test_should_build_engine_config_with_defaults() {
    let config = EngineConfig::new("/tmp/repo".to_owned());

    assert_eq!(config.repo_path(), "/tmp/repo");
    assert!(config.model().is_none());
    assert!(config.max_tokens().is_none());
}

#[test]
fn test_should_build_engine_config_with_overrides() {
    let config = EngineConfig::new("/tmp/repo".to_owned())
        .with_model("opus-4".to_owned())
        .with_max_tokens(16384_u32);

    assert_eq!(config.model(), Some("opus-4"));
    assert_eq!(config.max_tokens(), Some(16384));
}

#[test]
fn test_should_compute_gba_dir_path() {
    let config = EngineConfig::new("/home/user/project".to_owned());

    assert_eq!(config.gba_dir(), "/home/user/project/.gba");
    assert_eq!(config.trees_dir(), "/home/user/project/.trees");
    assert_eq!(config.config_path(), "/home/user/project/.gba/config.yaml");
}

#[test]
fn test_should_create_agent_runner_with_defaults() {
    let engine_config = EngineConfig::new("/tmp/test".to_owned());
    let project_config = ProjectConfig::default();

    let runner = AgentRunner::new(&engine_config, &project_config);
    assert!(runner.model.is_none());
    assert!(runner.max_tokens.is_none());
    assert_eq!(runner.permission_mode, PermissionMode::Auto);
}

#[test]
fn test_should_prefer_cli_model_override() {
    let engine_config = EngineConfig::new("/tmp/test".to_owned()).with_model("cli-model".to_owned());
    let mut project_config = ProjectConfig::default();
    project_config.agent.model = Some("config-model".to_owned());

    let runner = AgentRunner::new(&engine_config, &project_config);

    assert_eq!(runner.model.as_deref(), Some("cli-model"));
}

#[test]
fn test_should_use_project_model_when_no_cli_override() {
    let engine_config = EngineConfig::new("/tmp/test".to_owned());
    let mut project_config = ProjectConfig::default();
    project_config.agent.model = Some("config-model".to_owned());

    let runner = AgentRunner::new(&engine_config, &project_config);

    assert_eq!(runner.model.as_deref(), Some("config-model"));
}

#[test]
fn agent_runner_resolves_prompt_dirs_and_tokens() {
    let engine_config = EngineConfig::new("/repo".to_owned());
    let mut project_config = ProjectConfig::default();
    project_config.prompts.extra_dirs = vec!["prompts".to_owned(), "/abs/dir".to_owned()];
    project_config.agent.max_tokens = Some(100);
    let runner = AgentRunner::new(&engine_config, &project_config);
    assert_eq!(runner.prompt_dirs, vec!["/repo/prompts".to_owned(), "/abs/dir".to_owned()]);
    assert_eq!(runner.max_tokens, Some(100));
    let override_config = EngineConfig::new("/repo".to_owned()).with_max_tokens(7);
    assert_eq!(AgentRunner::new(&override_config, &project_config).max_tokens, Some(7));
}

#[test]
fn project_config_defaults() {
    let c = ProjectConfig::default();
    assert!(c.git.auto_commit);
    assert_eq!(c.git.branch_pattern, "feat/{id}-{slug}");
    assert_eq!(c.git.base_branch, "main");
    assert_eq!(c.review, ReviewConfig { enabled: true, max_iterations: 3 });
    assert_eq!(c.verification, VerificationConfig { enabled: true, max_iterations: 3 });
    assert!(c.hooks.pre_commit.is_empty());
    assert_eq!(c.hooks.max_retries, 5);
    assert_eq!(HooksConfig::default().max_retries, 5);
    assert_eq!(GitConfig::default().base_branch, "main");
    assert!(c.prompts.extra_dirs.is_empty());
}

#[test]
fn build_engine_config_takes_model() {
    let c = build_engine_config("/r".to_owned(), Some("m".to_owned()));
    assert_eq!(c.model(), Some("m"));
    let d = build_engine_config("/r".to_owned(), None);
    assert!(d.model().is_none());
    assert_eq!(d.repo_path(), "/r");
}

#[test]
fn engine_exposes_its_configuration() {
    let engine = Engine::new(EngineConfig::new("/work".to_owned()), ProjectConfig::default());
    assert_eq!(engine.gba_dir(), "/work/.gba");
    assert_eq!(engine.config().repo_path(), "/work");
    assert_eq!(engine.project_config().hooks.max_retries, 5);
    assert_eq!(engine.git().branch_name("0003_x"), "feat/0003-0003_x");
    assert!(engine.agent_runner().model().is_none());
}

#[test]
fn join_path_cases() {
    assert_eq!(join_path("", "a"), "a");
    assert_eq!(join_path("/", "a"), "/a");
    assert_eq!(join_path("x", "y"), "x/y");
}

#[test]
fn transcript_helpers() {
    assert_eq!(turn_count(Some(7)), 7);
    assert_eq!(turn_count(None), 1);
    assert_eq!(join_text_blocks(&vec!["a".to_owned(), "b".to_owned()]), "a\nb\n");
    assert_eq!(join_text_blocks(&Vec::new()), "");
}

#[test]
fn cli_log_context_and_app_keys() {
    let cli = Cli { command: Commands::Run { slug: "s".to_owned(), repo: ".".to_owned(), model: None } };
    assert_eq!(cli.log_context(), (".".to_owned(), Some("s".to_owned())));
    let init = Cli { command: Commands::Init { repo: "r".to_owned() } };
    assert_eq!(init.log_context(), ("r".to_owned(), None));
    let mut app = App::new();
    app.handle_key('x');
    assert!(app.running);
    app.handle_key('q');
    assert!(!app.running);
}

#[test]
fn session_defaults() {
    let s = Session::new("/r".to_owned(), "sonnet-4".to_owned());
    assert_eq!(s.model, "sonnet-4");
    assert_eq!(s.max_tokens, 8192);
    assert!(s.system_prompt.is_none());
}
