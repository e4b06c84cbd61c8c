use svgwatch::args::Config;
use svgwatch::aux_files::AuxFiles;
use svgwatch::convert::{
    remove_generated_files, rename_generated_files, render_command, render_verdict, Move,
};
use svgwatch::error::AppError;

fn config(prefix: &str) -> Config {
    Config {
        watch_dir: "w".to_string(),
        inkscape_path: "/usr/bin/inkscape".to_string(),
        aux_prefix: prefix.to_string(),
        regenerate: true,
        recursively: true,
    }
}

fn aux() -> AuxFiles {
    AuxFiles { pdf: "w/a.pdf".to_string(), pdf_tex: "w/a.pdf_tex".to_string() }
}

#[test]
fn command_exports_page_file_and_fragment() {
    let cmd = render_command("w/fig1.svg", &config("")).unwrap();
    assert_eq!(cmd.program, "/usr/bin/inkscape");
    assert_eq!(
        cmd.args,
        vec![
            "--export-filename".to_string(),
            "w/fig1.pdf".to_string(),
            "--export-latex".to_string(),
            "w/fig1.svg".to_string(),
        ]
    );
}

#[test]
fn command_follows_the_prefix() {
    let cmd = render_command("w/sub/fig1.svg", &config("gen-")).unwrap();
    assert_eq!(cmd.args[1], "w/sub/gen-fig1.pdf");
    assert_eq!(cmd.args[3], "w/sub/fig1.svg");
}

#[test]
fn no_command_without_derived_names() {
    assert_eq!(render_command("/", &config("")), Err(AppError::FailedToRetrieveFileStem));
}

#[test]
fn zero_exit_is_success() {
    assert_eq!(render_verdict(true, Vec::new()), Ok(true));
    assert_eq!(render_verdict(true, b"warning: font".to_vec()), Ok(true));
}

#[test]
fn nonzero_exit_surfaces_the_diagnostic() {
    let said = b"parse error in line 3\n".to_vec();
    let verdict = render_verdict(false, said.clone());
    assert_eq!(verdict, Err(AppError::InkscapeError(said)));
    assert_eq!(verdict.unwrap_err().message(), "Inkscape error: parse error in line 3");
}

#[test]
fn nonzero_exit_without_output_is_still_a_failure() {
    assert_eq!(render_verdict(false, Vec::new()), Err(AppError::InkscapeError(Vec::new())));
}

#[test]
fn both_outputs_are_deleted_page_file_first() {
    let plan = remove_generated_files(aux(), true, true);
    assert_eq!(plan.delete, vec!["w/a.pdf".to_string(), "w/a.pdf_tex".to_string()]);
    assert!(plan.missing.is_empty());
}

#[test]
fn absent_outputs_are_noted_and_not_deleted() {
    let plan = remove_generated_files(aux(), false, false);
    assert!(plan.delete.is_empty());
    assert_eq!(plan.missing, vec!["w/a.pdf".to_string(), "w/a.pdf_tex".to_string()]);
}

#[test]
fn partial_outputs_are_cleaned_up() {
    let plan = remove_generated_files(aux(), true, false);
    assert_eq!(plan.delete, vec!["w/a.pdf".to_string()]);
    assert_eq!(plan.missing, vec!["w/a.pdf_tex".to_string()]);
    let plan = remove_generated_files(aux(), false, true);
    assert_eq!(plan.delete, vec!["w/a.pdf_tex".to_string()]);
    assert_eq!(plan.missing, vec!["w/a.pdf".to_string()]);
}

#[test]
fn cleanup_can_be_repeated() {
    let first = remove_generated_files(aux(), true, true);
    assert_eq!(first.delete.len(), 2);
    let again = remove_generated_files(aux(), false, false);
    assert!(again.delete.is_empty());
    let once_more = remove_generated_files(aux(), false, false);
    assert_eq!(again, once_more);
}

#[test]
fn rename_moves_both_outputs() {
    let moves = rename_generated_files("w/old.svg", "w/sub/new.svg", "p").unwrap();
    assert_eq!(
        moves,
        vec![
            Move { from: "w/pold.pdf".to_string(), to: "w/sub/pnew.pdf".to_string() },
            Move { from: "w/pold.pdf_tex".to_string(), to: "w/sub/pnew.pdf_tex".to_string() },
        ]
    );
}

#[test]
fn rename_needs_both_names() {
    assert_eq!(
        rename_generated_files("", "w/new.svg", ""),
        Err(AppError::FailedToRetrieveFileStem)
    );
    assert_eq!(
        rename_generated_files("w/old.svg", "/", ""),
        Err(AppError::FailedToRetrieveFileStem)
    );
}
