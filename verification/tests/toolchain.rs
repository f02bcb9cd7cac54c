use marker_bridge::stmt::{LetStmt, StmtKind};
use marker_bridge::expr::{CallExpr, CommonExprData, ExprCategory, ExprKind};
use marker_bridge::ast::PatKind;
use marker_bridge::ids::{ExprId, LetStmtId, SpanId, StmtIdInner};
use marker_bridge::toolchain::{
    adjacent_driver_path, get_toolchain_folder, parse_which_output, search_driver,
    search_next_to_cargo_marker, trim_whitespace, Candidate, Cargo, Config, DriverSearch,
    ResolveError, SearchStep, Toolchain,
};

#[test]
fn which_output_is_trimmed_to_one_path() {
    let r = parse_which_output(true, "  /opt/toolchains/T/bin/cargo\n", "");
    assert_eq!(r.unwrap(), "/opt/toolchains/T/bin/cargo");
}

#[test]
fn which_failure_carries_stderr() {
    let r = parse_which_output(false, "", "no such toolchain\n");
    match r {
        Err(ResolveError::Subprocess { stderr }) => assert_eq!(stderr, "no such toolchain\n"),
        other => panic!("unexpected outcome: {other:?}"),
    }
}

#[test]
fn trim_handles_all_surrounding_whitespace() {
    assert_eq!(trim_whitespace("\t  a path \r\n"), "a path");
    assert_eq!(trim_whitespace("   \n"), "");
    assert_eq!(trim_whitespace("plain"), "plain");
}

#[test]
fn toolchain_folder_is_two_ancestors_up() {
    let r = get_toolchain_folder("/opt/toolchains/T/bin/cargo").unwrap();
    assert_eq!(r, "/opt/toolchains/T");
}

#[test]
fn toolchain_folder_fails_without_enough_ancestors() {
    assert!(get_toolchain_folder("/").is_err());
}

#[test]
fn adjacent_path_replaces_the_file_name() {
    let p = adjacent_driver_path("/home/u/.cargo/bin/cargo-marker");
    assert_eq!(p, "/home/u/.cargo/bin/marker_rustc_driver");
}

#[test]
fn resolution_default_candidate_wins_and_discards_errors() {
    let mut search = Toolchain::try_find_toolchain(
        false,
        Some(String::from("custom")),
        String::from("expected-default"),
    );
    match search.next_candidate() {
        Some(Candidate::Toolchain(t)) => assert_eq!(t, "custom"),
        other => panic!("unexpected candidate: {other:?}"),
    }
    let step = search.step(Err(ResolveError::Subprocess { stderr: String::from("no custom") }));
    assert!(matches!(step, SearchStep::Continue));
    match search.next_candidate() {
        Some(Candidate::Toolchain(t)) => assert_eq!(t, "expected-default"),
        other => panic!("unexpected candidate: {other:?}"),
    }
    let found = search_driver(
        "expected-default",
        Ok(String::from("/opt/toolchains/expected-default/bin/marker_rustc_driver")),
    )
    .unwrap();
    let step = search.step(Ok(found));
    match step {
        SearchStep::Done(tc) => {
            assert_eq!(
                tc.driver_path,
                "/opt/toolchains/expected-default/bin/marker_rustc_driver"
            );
            assert_eq!(tc.cargo.toolchain.as_deref(), Some("expected-default"));
        },
        other => panic!("unexpected step: {other:?}"),
    }
}

#[test]
fn resolution_exhaustion_reports_one_error_per_candidate_in_order() {
    let mut search = Toolchain::try_find_toolchain(
        false,
        Some(String::from("custom")),
        String::from("expected-default"),
    );
    let s1 = search.step(Err(ResolveError::Subprocess { stderr: String::from("first") }));
    assert!(matches!(s1, SearchStep::Continue));
    let s2 = search.step(Err(ResolveError::Subprocess { stderr: String::from("second") }));
    assert!(matches!(s2, SearchStep::Continue));
    let s3 = search.step(Err(ResolveError::NotFound { path: String::from("/x/driver") }));
    assert!(matches!(s3, SearchStep::Exhausted));
    let failure = search.into_failure();
    assert_eq!(failure.attempts.len(), 3);
    assert!(matches!(&failure.attempts[0], ResolveError::Subprocess { stderr } if stderr == "first"));
    assert!(matches!(&failure.attempts[1], ResolveError::Subprocess { stderr } if stderr == "second"));
    assert!(matches!(&failure.attempts[2], ResolveError::NotFound { path } if path == "/x/driver"));
}

#[test]
fn local_mode_tries_only_the_adjacent_binary() {
    let mut search = Toolchain::try_find_toolchain(true, None, String::from("default"));
    assert!(matches!(search.next_candidate(), Some(Candidate::AdjacentToBinary)));
    let outcome = search_next_to_cargo_marker(String::from("/x/marker_rustc_driver"), false);
    let e = outcome.unwrap_err();
    assert!(matches!(&e, ResolveError::NotFound { path } if path == "/x/marker_rustc_driver"));
    let step = search.step(Err(e));
    assert!(matches!(step, SearchStep::Exhausted));
    assert_eq!(search.into_failure().attempts.len(), 1);
}

#[test]
fn adjacent_driver_found_runs_with_plain_cargo() {
    let tc = search_next_to_cargo_marker(String::from("/x/marker_rustc_driver"), true).unwrap();
    assert_eq!(tc.driver_path, "/x/marker_rustc_driver");
    assert!(tc.cargo.toolchain.is_none());
}

#[test]
fn cargo_with_driver_sets_the_workspace_wrapper() {
    let tc = Toolchain {
        driver_path: String::from("/t/bin/marker_rustc_driver"),
        cargo: Cargo::with_toolchain(String::from("nightly")),
    };
    let cmd = tc.cargo_with_driver();
    assert_eq!(cmd.program, "cargo");
    assert_eq!(cmd.args, vec![String::from("+nightly")]);
    assert_eq!(
        cmd.envs,
        vec![(
            String::from("RUSTC_WORKSPACE_WRAPPER"),
            String::from("/t/bin/marker_rustc_driver")
        )]
    );
}

#[test]
fn cargo_build_command_isolates_the_target_dir() {
    let tc = Toolchain {
        driver_path: String::from("/t/bin/marker_rustc_driver"),
        cargo: Cargo { toolchain: None },
    };
    let config = Config {
        debug_build: false,
        build_rustc_flags: String::from("--cap-lints=allow"),
        marker_target_dir: String::from("/proj/target/marker"),
    };
    let cmd = tc.cargo_build_command(&config, "/plugin/Cargo.toml");
    assert_eq!(cmd.program, "cargo");
    assert_eq!(
        cmd.args,
        vec![
            String::from("build"),
            String::from("--manifest-path"),
            String::from("/plugin/Cargo.toml"),
            String::from("--target-dir"),
            String::from("/proj/target/marker"),
            String::from("--release"),
        ]
    );
    assert_eq!(
        cmd.envs,
        vec![(String::from("RUSTFLAGS"), String::from("--cap-lints=allow"))]
    );
}

#[test]
fn debug_build_omits_release() {
    let tc = Toolchain {
        driver_path: String::from("/t/d"),
        cargo: Cargo { toolchain: None },
    };
    let config = Config {
        debug_build: true,
        build_rustc_flags: String::new(),
        marker_target_dir: String::from("/t/target"),
    };
    let cmd = tc.cargo_build_command(&config, "/m/Cargo.toml");
    assert!(!cmd.args.contains(&String::from("--release")));
    assert_eq!(cmd.args.len(), 5);
}

#[test]
fn let_stmt_exposes_its_parts() {
    let init = ExprKind {
        id: ExprId { owner: 1, index: 2 },
        span: SpanId { lo: 5, hi: 9 },
        category: ExprCategory::Lit,
    };
    let stmt = LetStmt::new(
        LetStmtId { owner: 1, index: 7 },
        SpanId { lo: 4, hi: 10 },
        PatKind::Wildcard,
        None,
        Some(init),
        None,
    );
    assert_eq!(stmt.pat(), PatKind::Wildcard);
    assert_eq!(stmt.ty(), None);
    assert_eq!(stmt.init(), Some(init));
    assert_eq!(stmt.els(), None);
    let id = stmt.id();
    assert_eq!(id.inner, StmtIdInner::LetStmt(LetStmtId { owner: 1, index: 7 }));
    let kind = StmtKind::Let(stmt);
    assert_eq!(kind.id().inner, StmtIdInner::LetStmt(LetStmtId { owner: 1, index: 7 }));
    kind.attrs();
}

#[test]
fn call_expr_keeps_operand_and_argument_order() {
    let operand = ExprKind {
        id: ExprId { owner: 1, index: 1 },
        span: SpanId { lo: 0, hi: 3 },
        category: ExprCategory::Path,
    };
    let arg0 = ExprKind {
        id: ExprId { owner: 1, index: 2 },
        span: SpanId { lo: 4, hi: 5 },
        category: ExprCategory::Lit,
    };
    let arg1 = ExprKind {
        id: ExprId { owner: 1, index: 3 },
        span: SpanId { lo: 6, hi: 7 },
        category: ExprCategory::Lit,
    };
    let call = CallExpr::new(
        CommonExprData::new(ExprId { owner: 1, index: 4 }, SpanId { lo: 0, hi: 8 }),
        operand,
        vec![arg0, arg1],
    );
    assert_eq!(call.operand(), operand);
    assert_eq!(call.args(), &vec![arg0, arg1]);
}
