use dbt_index_core::project_meta::{
    GenerationHead, ResolverHead, package_rows, project_env_var_rows, project_var_source_rows, resolve_project,
};

fn s(x: &str) -> Option<String> {
    Some(x.to_string())
}

fn gen(name: Option<String>, adapter: Option<String>, vars: Option<String>) -> GenerationHead {
    GenerationHead { project_name: name, adapter_type: adapter, dbt_version: s("2.0.0"), vars_json: vars, env_vars_json: None }
}

fn res(vars: Option<String>, sha: Option<String>, dirty: Option<i32>) -> ResolverHead {
    ResolverHead { vars_json: vars, env_vars_json: s("{}"), pkg_kinds_json: None, git_sha: sha, git_branch: s("main"), git_is_dirty: dirty }
}

#[test]
fn project_carries_the_generation_fields_and_the_git_state() {
    let g = vec![gen(s(""), None, None), gen(s("my_project"), s("duckdb"), s("{\"a\":1}"))];
    let r = vec![res(s("{\"old\":1}"), None, None), res(None, s("abc123"), Some(1))];
    let p = resolve_project(&g, None, &r).expect("a project");
    assert_eq!(p.project_name, "my_project");
    assert_eq!(p.adapter_type, "duckdb");
    assert_eq!(p.dbt_version, "2.0.0");
    assert_eq!(p.vars_json.as_deref(), Some("{\"a\":1}"));
    assert_eq!(p.env_vars_json.as_deref(), Some("{}"), "falls back to the resolver state");
    assert_eq!(p.git_sha.as_deref(), Some("abc123"));
    assert_eq!(p.git_branch.as_deref(), Some("main"));
    assert_eq!(p.git_is_dirty, Some(true));
    assert_eq!(p.pkg_kinds_json, None);
}

#[test]
fn an_older_directory_falls_back_to_the_key_value_rows() {
    let legacy = vec![
        (s("project_name"), s("old")),
        (s("adapter_type"), s("postgres")),
        (None, s("ignored")),
        (s("project_name"), s("legacy_project")),
    ];
    let g = vec![gen(None, s("snowflake"), None)];
    let p = resolve_project(&g, Some(&legacy), &vec![]).expect("a project");
    assert_eq!(p.project_name, "legacy_project", "the last row of a key wins");
    assert_eq!(p.adapter_type, "snowflake", "the generation file still wins where it has a value");
    assert_eq!(p.dbt_version, "2.0.0");
    assert_eq!(p.git_is_dirty, None);
}

#[test]
fn no_project_name_means_no_project() {
    assert!(resolve_project(&vec![], None, &vec![]).is_none());
    assert!(resolve_project(&vec![gen(s(""), s("duckdb"), None)], None, &vec![]).is_none());
    assert!(resolve_project(&vec![], Some(&vec![(s("adapter_type"), s("duckdb"))]), &vec![]).is_none());
}

#[test]
fn the_project_texts_become_rows() {
    let vars = project_var_source_rows(Some(r#"{"my_project":{"region":"emea"},"dbt_utils":{"x":1}}"#));
    assert_eq!(
        vars,
        vec![
            ("dbt_utils".to_string(), r#"{"x":1}"#.to_string()),
            ("my_project".to_string(), r#"{"region":"emea"}"#.to_string()),
        ]
    );
    assert!(project_var_source_rows(None).is_empty());
    assert!(project_var_source_rows(Some("[1]")).is_empty());

    let env = project_env_var_rows(Some(r#"{"DBT_USER":["profiles.yml",3,"models/a.sql"],"HOME":"x"}"#));
    assert_eq!(
        env,
        vec![
            ("DBT_USER".to_string(), vec!["profiles.yml".to_string(), "models/a.sql".to_string()]),
            ("HOME".to_string(), vec![]),
        ]
    );
    assert!(project_env_var_rows(Some("not json")).is_empty());

    assert_eq!(package_rows(Some(r#"{"dbt_utils":["hub"],"my_pkg":["local"]}"#)), vec!["dbt_utils", "my_pkg"]);
    assert!(package_rows(None).is_empty());
}
