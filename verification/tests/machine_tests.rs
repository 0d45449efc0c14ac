use gardnr::fsops::{Action, Event, FileReadResult, RunResult};
use gardnr::scaffold::{
    comp_step, scaffold_component, scaffold_js_project, scaffold_python_project, CompFailure,
    CompMachine, CompOutcome, CompStep,
};

fn s(x: &str) -> String {
    x.to_string()
}

fn segs(parts: &[&str]) -> Vec<String> {
    parts.iter().map(|p| p.to_string()).collect()
}

fn next(step: CompStep) -> Action {
    match step {
        CompStep::Next(a) => a,
        CompStep::Done(o) => panic!("machine finished early: {:?}", o),
    }
}

fn done(step: CompStep) -> CompOutcome {
    match step {
        CompStep::Next(a) => panic!("machine asked for another action: {:?}", a),
        CompStep::Done(o) => o,
    }
}

fn ran_ok() -> Event {
    Event::Ran(RunResult::Completed { success: true })
}

fn ran_fail() -> Event {
    Event::Ran(RunResult::Completed { success: false })
}

fn no_launch() -> Event {
    Event::Ran(RunResult::CouldNotStart)
}

fn feed(m: CompMachine, ev: Event) -> (CompMachine, CompStep) {
    comp_step(m, ev)
}

#[test]
fn unknown_technology_machine_is_inert() {
    let (_m, step) = scaffold_component(segs(&[".", "proj"]), "docs", "cobol");
    assert_eq!(done(step), CompOutcome::NoScaffold);
}

#[test]
fn flask_writes_stub_manifest_and_env() {
    let (m, step) = scaffold_component(segs(&[".", "proj"]), "api", "flask");
    assert_eq!(next(step), Action::CheckTool { name: s("python3") });
    let (m, step) = feed(m, Event::ToolFound(true));
    assert_eq!(next(step), Action::CreateDirAll { path: segs(&[".", "proj", "api"]) });
    let (m, step) = feed(m, Event::Completed(true));
    assert_eq!(
        next(step),
        Action::RunTool {
            program: s("python3"),
            args: segs(&["-m", "pip", "show", "flask"]),
            dir: None,
        }
    );
    let (m, step) = feed(m, ran_ok());
    match next(step) {
        Action::WriteFile { path, content } => {
            assert_eq!(path, segs(&[".", "proj", "api", "app.py"]));
            assert!(content.starts_with("from flask import Flask, jsonify"));
        }
        a => panic!("unexpected action: {:?}", a),
    }
    let (m, step) = feed(m, Event::Completed(true));
    assert_eq!(
        next(step),
        Action::WriteFile {
            path: segs(&[".", "proj", "api", "requirements.txt"]),
            content: s("Flask>=2.3,<3.0\nFlask-CORS>=4.0\npython-dotenv>=1.0\n"),
        }
    );
    let (m, step) = feed(m, Event::Completed(true));
    assert_eq!(
        next(step),
        Action::WriteFile {
            path: segs(&[".", "proj", "api", ".env"]),
            content: s("FLASK_ENV=development\nFLASK_DEBUG=True\nFLASK_APP=app.py\n"),
        }
    );
    let (_m, step) = feed(m, Event::Completed(true));
    assert_eq!(done(step), CompOutcome::Scaffolded { degraded: false, install_warning: false });
}

#[test]
fn missing_python_degrades_to_bare_directory() {
    let (m, step) = scaffold_python_project(segs(&["/tmp", "p"]), "api", "flask");
    assert_eq!(next(step), Action::CheckTool { name: s("python3") });
    let (m, step) = feed(m, Event::ToolFound(false));
    assert_eq!(next(step), Action::CheckTool { name: s("python") });
    let (m, step) = feed(m, Event::ToolFound(false));
    assert_eq!(next(step), Action::CreateDirAll { path: segs(&["/tmp", "p", "api"]) });
    let (_m, step) = feed(m, Event::Completed(true));
    assert_eq!(done(step), CompOutcome::Scaffolded { degraded: true, install_warning: false });
}

#[test]
fn declined_install_is_noted_in_requirements() {
    let (m, step) = scaffold_component(segs(&[".", "p"]), "svc", "fastapi");
    assert_eq!(next(step), Action::CheckTool { name: s("python3") });
    let (m, step) = feed(m, Event::ToolFound(true));
    assert_eq!(next(step), Action::CreateDirAll { path: segs(&[".", "p", "svc"]) });
    let (m, step) = feed(m, Event::Completed(true));
    // fastapi is not installed: pip show fails, the user declines
    assert_eq!(
        next(step),
        Action::RunTool {
            program: s("python3"),
            args: segs(&["-m", "pip", "show", "fastapi"]),
            dir: None,
        }
    );
    let (m, step) = feed(m, ran_fail());
    assert_eq!(next(step), Action::AskInstall { package: s("fastapi") });
    let (m, step) = feed(m, Event::Answer(false));
    // uvicorn is not installed either, but the user accepts and the install
    // succeeds
    assert_eq!(
        next(step),
        Action::RunTool {
            program: s("python3"),
            args: segs(&["-m", "pip", "show", "uvicorn"]),
            dir: None,
        }
    );
    let (m, step) = feed(m, ran_fail());
    assert_eq!(next(step), Action::AskInstall { package: s("uvicorn") });
    let (m, step) = feed(m, Event::Answer(true));
    assert_eq!(
        next(step),
        Action::RunTool {
            program: s("python3"),
            args: segs(&["-m", "pip", "install", "uvicorn"]),
            dir: None,
        }
    );
    let (m, step) = feed(m, ran_ok());
    let (m, step) = {
        match next(step) {
            Action::WriteFile { path, content } => {
                assert_eq!(path, segs(&[".", "p", "svc", "main.py"]));
                assert!(content.starts_with("from fastapi import FastAPI"));
            }
            a => panic!("unexpected action: {:?}", a),
        }
        feed(m, Event::Completed(true))
    };
    // one of the two packages is missing, so the manifest carries a reminder
    match next(step) {
        Action::WriteFile { path, content } => {
            assert_eq!(path, segs(&[".", "p", "svc", "requirements.txt"]));
            assert!(content.starts_with("# FastAPI/uvicorn not installed"));
        }
        a => panic!("unexpected action: {:?}", a),
    }
    let (_m, step) = feed(m, Event::Completed(true));
    assert_eq!(done(step), CompOutcome::Scaffolded { degraded: false, install_warning: false });
}

#[test]
fn django_generator_output_is_renamed_to_component() {
    let (m, step) = scaffold_component(segs(&[".", "blog"]), "web", "django");
    assert_eq!(next(step), Action::CheckTool { name: s("python3") });
    let (m, step) = feed(m, Event::ToolFound(true));
    assert_eq!(
        next(step),
        Action::RunTool {
            program: s("python3"),
            args: segs(&["-m", "pip", "show", "django"]),
            dir: None,
        }
    );
    let (m, step) = feed(m, ran_ok());
    assert_eq!(
        next(step),
        Action::RunTool {
            program: s("django-admin"),
            args: segs(&["startproject", "blog"]),
            dir: Some(segs(&[".", "blog"])),
        }
    );
    let (m, step) = feed(m, ran_ok());
    // the generator named its output after the project
    assert_eq!(next(step), Action::CheckDirExists { path: segs(&[".", "blog", "blog"]) });
    let (m, step) = feed(m, Event::DirExists(true));
    assert_eq!(next(step), Action::CheckDirExists { path: segs(&[".", "blog", "web"]) });
    let (m, step) = feed(m, Event::DirExists(false));
    assert_eq!(
        next(step),
        Action::Rename { from: segs(&[".", "blog", "blog"]), to: segs(&[".", "blog", "web"]) }
    );
    let (m, step) = feed(m, Event::Completed(true));
    assert_eq!(
        next(step),
        Action::WriteFile {
            path: segs(&[".", "blog", "web", "requirements.txt"]),
            content: s("Django>=4.2,<5.0\ndjango-cors-headers>=4.0\ndjango-environ>=0.10\n"),
        }
    );
    let (_m, step) = feed(m, Event::Completed(true));
    assert_eq!(done(step), CompOutcome::Scaffolded { degraded: false, install_warning: false });
}

#[test]
fn reconciliation_collision_fails_and_renames_nothing() {
    let (m, step) = scaffold_component(segs(&[".", "blog"]), "web", "django");
    next(step);
    let (m, step) = feed(m, Event::ToolFound(true));
    next(step);
    let (m, step) = feed(m, ran_ok());
    next(step);
    let (m, step) = feed(m, ran_ok());
    assert_eq!(next(step), Action::CheckDirExists { path: segs(&[".", "blog", "blog"]) });
    let (m, step) = feed(m, Event::DirExists(true));
    assert_eq!(next(step), Action::CheckDirExists { path: segs(&[".", "blog", "web"]) });
    // the expected directory is already occupied: failure, and the machine
    // asks for nothing further — in particular no rename and no overwrite
    let (_m, step) = feed(m, Event::DirExists(true));
    assert_eq!(done(step), CompOutcome::Failed(CompFailure::NamingCollision));
}

#[test]
fn reconciliation_with_equal_names_performs_no_rename() {
    // the component carries the project's own name, so the generator's
    // output is already in place
    let (m, step) = scaffold_component(segs(&[".", "web"]), "web", "django");
    next(step);
    let (m, step) = feed(m, Event::ToolFound(true));
    next(step);
    let (m, step) = feed(m, ran_ok());
    next(step);
    let (m, step) = feed(m, ran_ok());
    assert_eq!(next(step), Action::CreateDirAll { path: segs(&[".", "web", "web"]) });
    let (m, step) = feed(m, Event::Completed(true));
    match next(step) {
        Action::WriteFile { path, .. } => {
            assert_eq!(path, segs(&[".", "web", "web", "requirements.txt"]))
        }
        a => panic!("unexpected action: {:?}", a),
    }
    let (_m, step) = feed(m, Event::Completed(true));
    assert_eq!(done(step), CompOutcome::Scaffolded { degraded: false, install_warning: false });
}

#[test]
fn silent_generator_leads_to_ensured_directory() {
    let (m, step) = scaffold_component(segs(&[".", "blog"]), "web", "django");
    next(step);
    let (m, step) = feed(m, Event::ToolFound(true));
    next(step);
    let (m, step) = feed(m, ran_ok());
    next(step);
    let (m, step) = feed(m, ran_ok());
    assert_eq!(next(step), Action::CheckDirExists { path: segs(&[".", "blog", "blog"]) });
    // the generator left nothing behind under the project's name
    let (m, step) = feed(m, Event::DirExists(false));
    assert_eq!(next(step), Action::CreateDirAll { path: segs(&[".", "blog", "web"]) });
    let (m, step) = feed(m, Event::Completed(true));
    match next(step) {
        Action::WriteFile { .. } => {}
        a => panic!("unexpected action: {:?}", a),
    }
    let (_m, step) = feed(m, Event::Completed(true));
    assert_eq!(done(step), CompOutcome::Scaffolded { degraded: false, install_warning: false });
}

#[test]
fn react_scaffold_runs_vite_renames_and_installs() {
    let (m, step) = scaffold_js_project(segs(&[".", "shop"]), "front", "react");
    assert_eq!(next(step), Action::CheckTool { name: s("npm") });
    let (m, step) = feed(m, Event::ToolFound(true));
    assert_eq!(
        next(step),
        Action::RunTool {
            program: s("npm"),
            args: segs(&["create", "vite@latest", "shop", "--", "--template", "react-ts"]),
            dir: Some(segs(&[".", "shop"])),
        }
    );
    let (m, step) = feed(m, ran_ok());
    assert_eq!(next(step), Action::CheckDirExists { path: segs(&[".", "shop", "shop"]) });
    let (m, step) = feed(m, Event::DirExists(true));
    assert_eq!(next(step), Action::CheckDirExists { path: segs(&[".", "shop", "front"]) });
    let (m, step) = feed(m, Event::DirExists(false));
    assert_eq!(
        next(step),
        Action::Rename { from: segs(&[".", "shop", "shop"]), to: segs(&[".", "shop", "front"]) }
    );
    let (m, step) = feed(m, Event::Completed(true));
    assert_eq!(
        next(step),
        Action::RunTool {
            program: s("npm"),
            args: segs(&["install"]),
            dir: Some(segs(&[".", "shop", "front"])),
        }
    );
    let (_m, step) = feed(m, ran_ok());
    assert_eq!(done(step), CompOutcome::Scaffolded { degraded: false, install_warning: false });
}

#[test]
fn yarn_is_used_when_npm_is_missing() {
    let (m, step) = scaffold_js_project(segs(&[".", "shop"]), "front", "vue");
    assert_eq!(next(step), Action::CheckTool { name: s("npm") });
    let (m, step) = feed(m, Event::ToolFound(false));
    assert_eq!(next(step), Action::CheckTool { name: s("yarn") });
    let (m, step) = feed(m, Event::ToolFound(true));
    match next(step) {
        Action::RunTool { program, args, .. } => {
            assert_eq!(program, s("yarn"));
            assert_eq!(args[0], s("create"));
            assert_eq!(args[1], s("vue@latest"));
        }
        a => panic!("unexpected action: {:?}", a),
    }
    drop(m);
}

#[test]
fn nextjs_uses_npx_and_needs_no_install_step() {
    let (m, step) = scaffold_component(segs(&[".", "shop"]), "site", "next");
    next(step);
    let (m, step) = feed(m, Event::ToolFound(true));
    assert_eq!(
        next(step),
        Action::RunTool {
            program: s("npx"),
            args: segs(&[
                "create-next-app@latest", "shop", "--typescript", "--tailwind", "--eslint",
                "--app", "--src-dir", "--import-alias", "@/*",
            ]),
            dir: Some(segs(&[".", "shop"])),
        }
    );
    let (m, step) = feed(m, ran_ok());
    next(step);
    let (m, step) = feed(m, Event::DirExists(true));
    next(step);
    let (m, step) = feed(m, Event::DirExists(false));
    next(step);
    let (_m, step) = feed(m, Event::Completed(true));
    assert_eq!(done(step), CompOutcome::Scaffolded { degraded: false, install_warning: false });
}

#[test]
fn express_scaffold_rewrites_manifest_scripts() {
    let (m, step) = scaffold_component(segs(&[".", "p"]), "srv", "express");
    assert_eq!(next(step), Action::CheckTool { name: s("npm") });
    let (m, step) = feed(m, Event::ToolFound(true));
    assert_eq!(next(step), Action::CreateDirAll { path: segs(&[".", "p", "srv"]) });
    let (m, step) = feed(m, Event::Completed(true));
    assert_eq!(
        next(step),
        Action::RunTool {
            program: s("npm"),
            args: segs(&["init", "-y"]),
            dir: Some(segs(&[".", "p", "srv"])),
        }
    );
    let (m, step) = feed(m, ran_ok());
    assert_eq!(
        next(step),
        Action::RunTool {
            program: s("npm"),
            args: segs(&["install", "express", "cors", "helmet", "dotenv"]),
            dir: Some(segs(&[".", "p", "srv"])),
        }
    );
    // the dependency install fails: only a warning
    let (m, step) = feed(m, ran_fail());
    assert_eq!(
        next(step),
        Action::RunTool {
            program: s("npm"),
            args: segs(&["install", "--save-dev", "nodemon", "@types/node", "@types/express"]),
            dir: Some(segs(&[".", "p", "srv"])),
        }
    );
    // the dev-dependency step's result is ignored entirely
    let (m, step) = feed(m, no_launch());
    match next(step) {
        Action::WriteFile { path, content } => {
            assert_eq!(path, segs(&[".", "p", "srv", "server.js"]));
            assert!(content.starts_with("const express = require('express');"));
        }
        a => panic!("unexpected action: {:?}", a),
    }
    let (m, step) = feed(m, Event::Completed(true));
    assert_eq!(
        next(step),
        Action::WriteFile {
            path: segs(&[".", "p", "srv", ".env"]),
            content: s("NODE_ENV=development\nPORT=3000\n"),
        }
    );
    let (m, step) = feed(m, Event::Completed(true));
    assert_eq!(next(step), Action::ReadFile { path: segs(&[".", "p", "srv", "package.json"]) });
    let manifest = s(
        "{\n  \"scripts\": {\n    \"test\": \"echo \\\"Error: no test specified\\\" && exit 1\"\n  },\n}\n",
    );
    let (m, step) = feed(m, Event::FileRead(FileReadResult::Content(manifest)));
    match next(step) {
        Action::WriteFile { path, content } => {
            assert_eq!(path, segs(&[".", "p", "srv", "package.json"]));
            assert!(content.contains("\"dev\": \"nodemon server.js\""));
        }
        a => panic!("unexpected action: {:?}", a),
    }
    let (_m, step) = feed(m, Event::Completed(true));
    assert_eq!(done(step), CompOutcome::Scaffolded { degraded: false, install_warning: true });
}

#[test]
fn express_without_manifest_still_succeeds() {
    let (m, step) = scaffold_component(segs(&[".", "p"]), "srv", "node");
    next(step);
    let (m, step) = feed(m, Event::ToolFound(true));
    next(step);
    let (m, step) = feed(m, Event::Completed(true));
    next(step);
    let (m, step) = feed(m, ran_ok());
    next(step);
    let (m, step) = feed(m, ran_ok());
    next(step);
    let (m, step) = feed(m, ran_ok());
    next(step);
    let (m, step) = feed(m, Event::Completed(true));
    next(step);
    let (m, step) = feed(m, Event::Completed(true));
    next(step);
    let (_m, step) = feed(m, Event::FileRead(FileReadResult::Missing));
    assert_eq!(done(step), CompOutcome::Scaffolded { degraded: false, install_warning: false });
}

#[test]
fn generic_node_package_gets_stub_and_best_effort_install() {
    let (m, step) = scaffold_component(segs(&[".", "p"]), "util", "lodash");
    assert_eq!(next(step), Action::CheckTool { name: s("npm") });
    let (m, step) = feed(m, Event::ToolFound(true));
    assert_eq!(next(step), Action::CreateDirAll { path: segs(&[".", "p", "util"]) });
    let (m, step) = feed(m, Event::Completed(true));
    assert_eq!(
        next(step),
        Action::RunTool {
            program: s("npm"),
            args: segs(&["init", "-y"]),
            dir: Some(segs(&[".", "p", "util"])),
        }
    );
    let (m, step) = feed(m, ran_ok());
    match next(step) {
        Action::WriteFile { path, content } => {
            assert_eq!(path, segs(&[".", "p", "util", "index.js"]));
            assert!(content.contains("Hello from lodash!"));
        }
        a => panic!("unexpected action: {:?}", a),
    }
    let (m, step) = feed(m, Event::Completed(true));
    assert_eq!(
        next(step),
        Action::RunTool {
            program: s("npm"),
            args: segs(&["install", "lodash"]),
            dir: Some(segs(&[".", "p", "util"])),
        }
    );
    // even a failed best-effort install leaves the component scaffolded
    let (_m, step) = feed(m, no_launch());
    assert_eq!(done(step), CompOutcome::Scaffolded { degraded: false, install_warning: false });
}

#[test]
fn generic_python_package_writes_named_requirements() {
    let (m, step) = scaffold_component(segs(&[".", "lab"]), "ml", "numpy");
    assert_eq!(next(step), Action::CheckTool { name: s("python3") });
    let (m, step) = feed(m, Event::ToolFound(true));
    assert_eq!(next(step), Action::CreateDirAll { path: segs(&[".", "lab", "ml"]) });
    let (m, step) = feed(m, Event::Completed(true));
    assert_eq!(
        next(step),
        Action::RunTool {
            program: s("python3"),
            args: segs(&["-m", "pip", "show", "numpy"]),
            dir: None,
        }
    );
    let (m, step) = feed(m, ran_ok());
    match next(step) {
        Action::WriteFile { path, content } => {
            assert_eq!(path, segs(&[".", "lab", "ml", "main.py"]));
            assert!(content.contains("Hello from numpy!"));
        }
        a => panic!("unexpected action: {:?}", a),
    }
    let (m, step) = feed(m, Event::Completed(true));
    assert_eq!(
        next(step),
        Action::WriteFile {
            path: segs(&[".", "lab", "ml", "requirements.txt"]),
            content: s("# Requirements for numpy\nnumpy\n"),
        }
    );
    let (m, step) = feed(m, Event::Completed(true));
    assert_eq!(
        next(step),
        Action::WriteFile { path: segs(&[".", "lab", "ml", "__init__.py"]), content: s("") }
    );
    let (_m, step) = feed(m, Event::Completed(true));
    assert_eq!(done(step), CompOutcome::Scaffolded { degraded: false, install_warning: false });
}

#[test]
fn bare_python_writes_placeholder_requirements() {
    let (m, step) = scaffold_component(segs(&[".", "lab"]), "tools", "python");
    next(step);
    let (m, step) = feed(m, Event::ToolFound(true));
    next(step);
    let (m, step) = feed(m, Event::Completed(true));
    // no package to ensure: straight to the stub files
    match next(step) {
        Action::WriteFile { path, .. } => assert_eq!(path, segs(&[".", "lab", "tools", "main.py"])),
        a => panic!("unexpected action: {:?}", a),
    }
    let (m, step) = feed(m, Event::Completed(true));
    assert_eq!(
        next(step),
        Action::WriteFile {
            path: segs(&[".", "lab", "tools", "requirements.txt"]),
            content: s("# Add your Python dependencies here\n"),
        }
    );
    let (m, step) = feed(m, Event::Completed(true));
    next(step);
    let (_m, step) = feed(m, Event::Completed(true));
    assert_eq!(done(step), CompOutcome::Scaffolded { degraded: false, install_warning: false });
}

#[test]
fn rust_without_cargo_is_a_hard_error() {
    let (m, step) = scaffold_component(segs(&[".", "p"]), "core", "rust");
    assert_eq!(
        next(step),
        Action::RunTool { program: s("cargo"), args: segs(&["--version"]), dir: None }
    );
    let (_m, step) = feed(m, no_launch());
    assert_eq!(done(step), CompOutcome::Failed(CompFailure::ToolchainMissing));
}

#[test]
fn rust_scaffolds_with_cargo_new() {
    let (m, step) = scaffold_component(segs(&[".", "p"]), "core", "rust");
    next(step);
    // the version probe's exit status is not inspected, only that it ran
    let (m, step) = feed(m, ran_fail());
    assert_eq!(
        next(step),
        Action::RunTool {
            program: s("cargo"),
            args: segs(&["new", "core"]),
            dir: Some(segs(&[".", "p"])),
        }
    );
    let (_m, step) = feed(m, ran_ok());
    assert_eq!(done(step), CompOutcome::Scaffolded { degraded: false, install_warning: false });
}

#[test]
fn failed_generator_fails_the_component() {
    let (m, step) = scaffold_js_project(segs(&[".", "shop"]), "front", "svelte");
    next(step);
    let (m, step) = feed(m, Event::ToolFound(true));
    next(step);
    let (_m, step) = feed(m, ran_fail());
    assert_eq!(done(step), CompOutcome::Failed(CompFailure::GeneratorFailed));
}

#[test]
fn declined_django_install_degrades_to_bare_directory() {
    let (m, step) = scaffold_component(segs(&[".", "blog"]), "web", "django");
    next(step);
    let (m, step) = feed(m, Event::ToolFound(true));
    // django is not installed and the user declines the install
    let (m, step) = feed(m, {
        assert_eq!(
            next(step),
            Action::RunTool {
                program: s("python3"),
                args: segs(&["-m", "pip", "show", "django"]),
                dir: None,
            }
        );
        ran_fail()
    });
    assert_eq!(next(step), Action::AskInstall { package: s("django") });
    let (m, step) = feed(m, Event::Answer(false));
    assert_eq!(next(step), Action::CreateDirAll { path: segs(&[".", "blog", "web"]) });
    let (_m, step) = feed(m, Event::Completed(true));
    assert_eq!(done(step), CompOutcome::Scaffolded { degraded: true, install_warning: false });
}

#[test]
fn nuxt_runs_nuxi_then_installs() {
    let (m, step) = scaffold_component(segs(&[".", "shop"]), "site", "nuxt");
    next(step);
    let (m, step) = feed(m, Event::ToolFound(true));
    assert_eq!(
        next(step),
        Action::RunTool {
            program: s("npx"),
            args: segs(&["nuxi@latest", "init", "shop"]),
            dir: Some(segs(&[".", "shop"])),
        }
    );
    let (m, step) = feed(m, ran_ok());
    next(step);
    let (m, step) = feed(m, Event::DirExists(true));
    next(step);
    let (m, step) = feed(m, Event::DirExists(false));
    next(step);
    let (m, step) = feed(m, Event::Completed(true));
    assert_eq!(
        next(step),
        Action::RunTool {
            program: s("npm"),
            args: segs(&["install"]),
            dir: Some(segs(&[".", "shop", "site"])),
        }
    );
    let (_m, step) = feed(m, ran_ok());
    assert_eq!(done(step), CompOutcome::Scaffolded { degraded: false, install_warning: false });
}

#[test]
fn svelte_generator_arguments() {
    let (m, step) = scaffold_component(segs(&[".", "shop"]), "ui", "svelte");
    next(step);
    let (m, step) = feed(m, Event::ToolFound(true));
    assert_eq!(
        next(step),
        Action::RunTool {
            program: s("npm"),
            args: segs(&[
                "create", "svelte@latest", "shop", "--", "--template", "skeleton", "--types",
                "typescript", "--prettier", "--eslint",
            ]),
            dir: Some(segs(&[".", "shop"])),
        }
    );
    let _ = m;
}

#[test]
fn vue_generator_arguments() {
    let (m, step) = scaffold_component(segs(&[".", "shop"]), "ui", "vue");
    next(step);
    let (m, step) = feed(m, Event::ToolFound(true));
    assert_eq!(
        next(step),
        Action::RunTool {
            program: s("npm"),
            args: segs(&[
                "create", "vue@latest", "shop", "--", "--typescript", "--router", "--pinia",
                "--vitest", "--eslint",
            ]),
            dir: Some(segs(&[".", "shop"])),
        }
    );
    let _ = m;
}

#[test]
fn rename_failure_fails_the_component() {
    let (m, step) = scaffold_js_project(segs(&[".", "shop"]), "front", "react");
    next(step);
    let (m, step) = feed(m, Event::ToolFound(true));
    next(step);
    let (m, step) = feed(m, ran_ok());
    next(step);
    let (m, step) = feed(m, Event::DirExists(true));
    next(step);
    let (m, step) = feed(m, Event::DirExists(false));
    next(step);
    let (_m, step) = feed(m, Event::Completed(false));
    assert_eq!(done(step), CompOutcome::Failed(CompFailure::RenameFailed));
}

#[test]
fn stub_write_failure_fails_the_component() {
    let (m, step) = scaffold_python_project(segs(&[".", "p"]), "api", "pyramid");
    next(step);
    let (m, step) = feed(m, Event::ToolFound(true));
    next(step);
    let (m, step) = feed(m, Event::Completed(true));
    assert_eq!(
        next(step),
        Action::RunTool {
            program: s("python3"),
            args: segs(&["-m", "pip", "show", "pyramid"]),
            dir: None,
        }
    );
    let (m, step) = feed(m, ran_ok());
    match next(step) {
        Action::WriteFile { path, content } => {
            assert_eq!(path, segs(&[".", "p", "api", "app.py"]));
            assert!(content.starts_with("from pyramid.config import Configurator"));
        }
        a => panic!("unexpected action: {:?}", a),
    }
    let (_m, step) = feed(m, Event::Completed(false));
    assert_eq!(done(step), CompOutcome::Failed(CompFailure::WriteFailed));
}

#[test]
fn npm_init_failure_fails_the_component() {
    let (m, step) = scaffold_component(segs(&[".", "p"]), "srv", "express");
    next(step);
    let (m, step) = feed(m, Event::ToolFound(true));
    next(step);
    let (m, step) = feed(m, Event::Completed(true));
    next(step);
    let (_m, step) = feed(m, ran_fail());
    assert_eq!(done(step), CompOutcome::Failed(CompFailure::InitFailed));
}

#[test]
fn unstartable_pip_install_fails_the_component() {
    let (m, step) = scaffold_python_project(segs(&[".", "p"]), "api", "flask");
    next(step);
    let (m, step) = feed(m, Event::ToolFound(true));
    next(step);
    let (m, step) = feed(m, Event::Completed(true));
    next(step);
    let (m, step) = feed(m, ran_fail());
    next(step);
    let (m, step) = feed(m, Event::Answer(true));
    assert_eq!(
        next(step),
        Action::RunTool {
            program: s("python3"),
            args: segs(&["-m", "pip", "install", "flask"]),
            dir: None,
        }
    );
    let (_m, step) = feed(m, no_launch());
    assert_eq!(done(step), CompOutcome::Failed(CompFailure::LaunchFailed));
}

#[test]
fn plain_js_component_skips_the_best_effort_install() {
    let (m, step) = scaffold_js_project(segs(&[".", "p"]), "site", "myapp");
    next(step);
    let (m, step) = feed(m, Event::ToolFound(true));
    next(step);
    let (m, step) = feed(m, Event::Completed(true));
    next(step);
    let (m, step) = feed(m, ran_ok());
    match next(step) {
        Action::WriteFile { path, .. } => assert_eq!(path, segs(&[".", "p", "site", "index.js"])),
        a => panic!("unexpected action: {:?}", a),
    }
    // "myapp" names no well-known package: the machine finishes without
    // attempting an install
    let (_m, step) = feed(m, Event::Completed(true));
    assert_eq!(done(step), CompOutcome::Scaffolded { degraded: false, install_warning: false });
}

#[test]
fn manifest_write_failure_fails_the_component() {
    let (m, step) = scaffold_component(segs(&[".", "p"]), "srv", "express");
    next(step);
    let (m, step) = feed(m, Event::ToolFound(true));
    next(step);
    let (m, step) = feed(m, Event::Completed(true));
    next(step);
    let (m, step) = feed(m, ran_ok());
    next(step);
    let (m, step) = feed(m, ran_ok());
    next(step);
    let (m, step) = feed(m, ran_ok());
    next(step);
    let (m, step) = feed(m, Event::Completed(true));
    next(step);
    let (m, step) = feed(m, Event::Completed(true));
    next(step);
    let manifest = s("no scripts block here");
    let (m, step) = feed(m, Event::FileRead(FileReadResult::Content(manifest)));
    // with no scripts block to rewrite, the content is written back unchanged
    assert_eq!(
        next(step),
        Action::WriteFile {
            path: segs(&[".", "p", "srv", "package.json"]),
            content: s("no scripts block here"),
        }
    );
    let (_m, step) = feed(m, Event::Completed(false));
    assert_eq!(done(step), CompOutcome::Failed(CompFailure::WriteFailed));
}

#[test]
fn component_directory_create_failure_fails_the_component() {
    let (m, step) = scaffold_python_project(segs(&[".", "p"]), "api", "flask");
    next(step);
    let (m, step) = feed(m, Event::ToolFound(true));
    assert_eq!(next(step), Action::CreateDirAll { path: segs(&[".", "p", "api"]) });
    let (_m, step) = feed(m, Event::Completed(false));
    assert_eq!(done(step), CompOutcome::Failed(CompFailure::DirCreateFailed));
}

#[test]
fn unreadable_manifest_fails_the_component() {
    let (m, step) = scaffold_component(segs(&[".", "p"]), "srv", "express");
    next(step);
    let (m, step) = feed(m, Event::ToolFound(true));
    next(step);
    let (m, step) = feed(m, Event::Completed(true));
    next(step);
    let (m, step) = feed(m, ran_ok());
    next(step);
    let (m, step) = feed(m, ran_ok());
    next(step);
    let (m, step) = feed(m, ran_ok());
    next(step);
    let (m, step) = feed(m, Event::Completed(true));
    next(step);
    let (m, step) = feed(m, Event::Completed(true));
    next(step);
    let (_m, step) = feed(m, Event::FileRead(FileReadResult::Unreadable));
    assert_eq!(done(step), CompOutcome::Failed(CompFailure::ReadFailed));
}
