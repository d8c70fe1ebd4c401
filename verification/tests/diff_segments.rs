use github_tui::diff::{
    extract_filename_from_diff_line, render_diff_lines, segment_diff, window, DiffLine,
    DiffLineKind,
};

const TWO_FILES: &str = "diff --git a/src/a.rs b/src/a.rs\nindex 111..222 100644\n--- a/src/a.rs\n+++ b/src/a.rs\n@@ -1,2 +1,2 @@\n keep\n-old\n+new\ndiff --git a/b.txt b/b.txt\nindex 333..444 100644\n--- a/b.txt\n+++ b/b.txt\n@@ -0,0 +1 @@\n+added\n";

fn line(kind: DiffLineKind, text: &str) -> DiffLine {
    DiffLine { kind, text: text.to_string() }
}

fn rule() -> DiffLine {
    line(DiffLineKind::Rule, &"─".repeat(60))
}

#[test]
fn two_files_give_two_headers_before_their_hunks() {
    let out = segment_diff(TWO_FILES);
    let want = vec![
        rule(),
        line(DiffLineKind::FileName, "src/a.rs"),
        rule(),
        line(DiffLineKind::Hunk, "@@ -1,2 +1,2 @@"),
        line(DiffLineKind::Context, " keep"),
        line(DiffLineKind::Removed, "-old"),
        line(DiffLineKind::Added, "+new"),
        rule(),
        line(DiffLineKind::FileName, "b.txt"),
        rule(),
        line(DiffLineKind::Hunk, "@@ -0,0 +1 @@"),
        line(DiffLineKind::Added, "+added"),
    ];
    assert_eq!(out, want);
}

#[test]
fn two_files_give_six_header_lines_and_their_content() {
    let out = segment_diff(TWO_FILES);
    let content = 4 + 2;
    assert_eq!(out.len(), 2 * 3 + content);
    assert_eq!(out[0].kind, DiffLineKind::Rule);
    assert_eq!(out[1].kind, DiffLineKind::FileName);
    assert_eq!(out[2].kind, DiffLineKind::Rule);
    assert_eq!(out[7].kind, DiffLineKind::Rule);
    assert_eq!(out[8], line(DiffLineKind::FileName, "b.txt"));
}

#[test]
fn lines_inside_a_hunk_are_never_dropped() {
    let diff = "diff --git a/n.md b/n.md\nindex 1..2 100644\n--- a/n.md\n+++ b/n.md\n@@ -1,3 +1,3 @@\n--- note\n+++ x\nindex card\n context\n";
    let out = segment_diff(diff);
    let want = vec![
        rule(),
        line(DiffLineKind::FileName, "n.md"),
        rule(),
        line(DiffLineKind::Hunk, "@@ -1,3 +1,3 @@"),
        line(DiffLineKind::Removed, "--- note"),
        line(DiffLineKind::Added, "+++ x"),
        line(DiffLineKind::Context, "index card"),
        line(DiffLineKind::Context, " context"),
    ];
    assert_eq!(out, want);
}

#[test]
fn lines_before_any_file_are_kept() {
    let out = segment_diff("--- loose\nindex 1\ndiff --git a/x b/x\nindex 2\n+y\n");
    let want = vec![
        line(DiffLineKind::Removed, "--- loose"),
        line(DiffLineKind::Context, "index 1"),
        rule(),
        line(DiffLineKind::FileName, "x"),
        rule(),
        line(DiffLineKind::Added, "+y"),
    ];
    assert_eq!(out, want);
}

#[test]
fn path_lines_are_left_out_up_to_the_first_hunk() {
    let diff = "diff --git a/x b/x\nnew file mode 100644\nindex 0..1\n--- /dev/null\n+++ b/x\n@@ -0,0 +1,2 @@\n+y\n--- kept\n";
    let out = segment_diff(diff);
    let want = vec![
        rule(),
        line(DiffLineKind::FileName, "x"),
        rule(),
        line(DiffLineKind::Context, "new file mode 100644"),
        line(DiffLineKind::Hunk, "@@ -0,0 +1,2 @@"),
        line(DiffLineKind::Added, "+y"),
        line(DiffLineKind::Removed, "--- kept"),
    ];
    assert_eq!(out, want);
}

#[test]
fn renamed_and_deleted_files_show_no_path_lines() {
    let diff = "diff --git a/old.rs b/new.rs\nsimilarity index 90%\nrename from old.rs\nrename to new.rs\nindex 1..2 100644\n--- a/old.rs\n+++ b/new.rs\n@@ -1 +1 @@\n-a\n+b\ndiff --git a/gone b/gone\ndeleted file mode 100644\nindex 3..0\n--- a/gone\n+++ /dev/null\n@@ -1 +0,0 @@\n-bye\n";
    let out = segment_diff(diff);
    let want = vec![
        rule(),
        line(DiffLineKind::FileName, "new.rs"),
        rule(),
        line(DiffLineKind::Context, "similarity index 90%"),
        line(DiffLineKind::Context, "rename from old.rs"),
        line(DiffLineKind::Context, "rename to new.rs"),
        line(DiffLineKind::Hunk, "@@ -1 +1 @@"),
        line(DiffLineKind::Removed, "-a"),
        line(DiffLineKind::Added, "+b"),
        rule(),
        line(DiffLineKind::FileName, "gone"),
        rule(),
        line(DiffLineKind::Context, "deleted file mode 100644"),
        line(DiffLineKind::Hunk, "@@ -1 +0,0 @@"),
        line(DiffLineKind::Removed, "-bye"),
    ];
    assert_eq!(out, want);
    for l in &out {
        assert!(!l.text.starts_with("index "));
        assert!(!l.text.starts_with("--- "));
        assert!(!l.text.starts_with("+++ "));
        assert!(!l.text.starts_with("diff --git "));
    }
}

#[test]
fn binary_file_without_a_hunk_keeps_its_header_open() {
    let out = segment_diff("diff --git a/p.png b/p.png\nindex 1..2\nBinary files differ\nindex 9\n");
    let want = vec![
        rule(),
        line(DiffLineKind::FileName, "p.png"),
        rule(),
        line(DiffLineKind::Context, "Binary files differ"),
    ];
    assert_eq!(out, want);
}

#[test]
fn path_lines_are_absent_from_the_output() {
    let out = segment_diff(TWO_FILES);
    let names = out.iter().filter(|l| l.kind == DiffLineKind::FileName).count();
    assert_eq!(names, 2);
    for l in &out {
        assert!(!l.text.starts_with("index "));
        assert!(!l.text.starts_with("+++"));
        assert!(!l.text.starts_with("---"));
        assert!(!l.text.starts_with("diff --git "));
    }
}

#[test]
fn boundary_without_a_name_gives_no_header() {
    let out = segment_diff("diff --git onlyone\nindex 1..2\n+x\n");
    assert_eq!(out, vec![line(DiffLineKind::Added, "+x")]);
}

#[test]
fn empty_diff_gives_nothing() {
    assert_eq!(segment_diff(""), Vec::<DiffLine>::new());
}

#[test]
fn extract_filename_takes_the_fourth_word() {
    assert_eq!(
        extract_filename_from_diff_line("diff --git a/path/to/file b/path/to/file"),
        Some("path/to/file".to_string())
    );
    assert_eq!(
        extract_filename_from_diff_line("diff --git a/x other"),
        Some("other".to_string())
    );
    assert_eq!(
        extract_filename_from_diff_line("diff   --git \t a/x   b/y   tail"),
        Some("y".to_string())
    );
    assert_eq!(extract_filename_from_diff_line("diff --git a/x"), None);
    assert_eq!(extract_filename_from_diff_line(""), None);
}

#[test]
fn scrolling_cuts_the_same_output_anew() {
    let all = segment_diff(TWO_FILES);
    assert_eq!(window(&all, 0, 3), all[0..3].to_vec_of_clones());
    assert_eq!(window(&all, 4, 2), all[4..6].to_vec_of_clones());
    assert_eq!(window(&all, 10, 10), all[10..12].to_vec_of_clones());
    assert_eq!(window(&all, 12, 5), Vec::<DiffLine>::new());
    assert_eq!(window(&all, 500, 5), Vec::<DiffLine>::new());
    assert_eq!(window(&all, 2, 0), Vec::<DiffLine>::new());
    assert_eq!(window(&all, 1, usize::MAX), all[1..].to_vec_of_clones());
    assert_eq!(render_diff_lines(TWO_FILES, 4, 2), window(&all, 4, 2));
}

trait Clones {
    fn to_vec_of_clones(&self) -> Vec<DiffLine>;
}

impl Clones for [DiffLine] {
    fn to_vec_of_clones(&self) -> Vec<DiffLine> {
        self.iter().map(|l| l.clone()).collect()
    }
}
