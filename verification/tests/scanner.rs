use yoauditor::agent::file_tools::{
    check_info, check_read, count_lines, file_info_outcome, language_name, list_files,
    metadata_failure, read_outcome, search_content, search_outcome,
};
use yoauditor::agent::tools::ToolResult;
use yoauditor::scanner::{file_extension, Candidate, FileScanner, PathProbe, ScanConfig};

fn scanner() -> FileScanner {
    FileScanner::new("/repo".to_string(), ScanConfig::default())
}

fn candidate(path: &str, size: u64) -> Candidate {
    let name = path.rsplit('/').next().unwrap().to_string();
    Candidate { path: path.to_string(), name, size }
}

fn probe(name: &str) -> PathProbe {
    PathProbe {
        inside_repo: true,
        exists: true,
        is_file: true,
        is_dir: false,
        file_name: name.to_string(),
        size: Some(10),
    }
}

#[test]
fn default_scan_config() {
    let config = ScanConfig::default();
    assert_eq!(config.extensions.len(), 20);
    assert_eq!(config.extensions[0], "rs");
    assert_eq!(config.extensions[19], "svelte");
    assert_eq!(
        config.excludes,
        vec![".git", "target", "node_modules", "vendor", "dist", "build", "__pycache__", ".venv", "venv"]
    );
    assert_eq!(config.max_file_size, 100 * 1024);
    assert_eq!(config.max_files, None);
}

#[test]
fn extensions_follow_the_last_dot() {
    let cases = [
        "main.rs", "archive.tar.gz", "Makefile", ".bashrc", "..", ".", "", "a.", ".a.b", "a..b",
        "x.Y", "...",
    ];
    for name in cases {
        let expected = std::path::Path::new(name)
            .extension()
            .map(|e| e.to_str().unwrap().to_string());
        assert_eq!(file_extension(name), expected, "{:?}", name);
    }
}

#[test]
fn hidden_and_listed_names_are_excluded() {
    let scanner = scanner();
    assert!(scanner.is_excluded(".git"));
    assert!(scanner.is_excluded(".hidden"));
    assert!(scanner.is_excluded("target"));
    assert!(scanner.is_excluded("node_modules"));
    assert!(!scanner.is_excluded("src"));
    assert!(!scanner.is_excluded("targets"));
    assert!(!scanner.is_excluded(""));
    assert_eq!(scanner.repo_root(), "/repo");
    assert_eq!(scanner.scan_config().max_file_size, 102400);
}

#[test]
fn matches_checks_name_extension_and_size() {
    let scanner = scanner();
    assert!(scanner.matches("main.rs", 0));
    assert!(scanner.matches("main.rs", 102400));
    assert!(!scanner.matches("main.rs", 102401));
    assert!(!scanner.matches("notes.txt", 1));
    assert!(!scanner.matches("Makefile", 1));
    assert!(!scanner.matches(".hidden.rs", 1));
    assert!(!scanner.matches("vendor", 1));
    assert!(scanner.matches("a.b.py", 1));
    let odd = FileScanner::new(
        "/".to_string(),
        ScanConfig { extensions: vec!["".to_string()], excludes: vec![], max_file_size: 5, max_files: None },
    );
    assert!(odd.matches("Makefile", 5));
    assert!(odd.matches("trailing.", 1));
    assert!(!odd.matches("main.rs", 1));
}

#[test]
fn scan_keeps_accepted_files_in_order_up_to_the_limit() {
    let candidates = vec![
        candidate("src/main.rs", 10),
        candidate("README.md", 10),
        candidate("src/big.rs", 1 << 20),
        candidate("tools/run.py", 7),
        candidate("web/app.ts", 3),
    ];
    let all = scanner().scan(&candidates);
    let paths: Vec<&str> = all.iter().map(|f| f.path.as_str()).collect();
    assert_eq!(paths, vec!["src/main.rs", "tools/run.py", "web/app.ts"]);
    assert_eq!(all[1].size, 7);
    assert_eq!(all[1].extension, "py");

    let limited = FileScanner::new(
        "/repo".to_string(),
        ScanConfig { max_files: Some(2), ..ScanConfig::default() },
    );
    let two = limited.scan(&candidates);
    let paths: Vec<&str> = two.iter().map(|f| f.path.as_str()).collect();
    assert_eq!(paths, vec!["src/main.rs", "tools/run.py"]);

    let none = FileScanner::new(
        "/repo".to_string(),
        ScanConfig { max_files: Some(0), ..ScanConfig::default() },
    );
    assert!(none.scan(&candidates).is_empty());
    assert!(scanner().scan(&Vec::new()).is_empty());
}

#[test]
fn read_file_refusals() {
    let scanner = scanner();
    assert_eq!(check_read(&scanner, "a.rs", &probe("a.rs")), None);
    let outside = PathProbe { inside_repo: false, exists: false, ..probe("a.rs") };
    assert_eq!(
        check_read(&scanner, "../a.rs", &outside),
        Some(ToolResult::error("Access denied: path outside repository".to_string()))
    );
    let missing = PathProbe { exists: false, ..probe("a.rs") };
    assert_eq!(
        check_read(&scanner, "a.rs", &missing),
        Some(ToolResult::error("File not found: a.rs".to_string()))
    );
    let directory = PathProbe { is_file: false, is_dir: true, ..probe("src") };
    assert_eq!(
        check_read(&scanner, "src", &directory),
        Some(ToolResult::error("Not a file: src".to_string()))
    );
    let large = PathProbe { size: Some(1 << 30), ..probe("a.rs") };
    assert_eq!(
        check_read(&scanner, "a.rs", &large),
        Some(ToolResult::error("File too large or doesn't match scan criteria.".to_string()))
    );
    assert_eq!(
        check_read(&scanner, "a.txt", &probe("a.txt")),
        Some(ToolResult::error("File too large or doesn't match scan criteria.".to_string()))
    );
    let unknown_size = PathProbe { size: None, ..probe("a.txt") };
    assert_eq!(check_read(&scanner, "a.txt", &unknown_size), None);
}

#[test]
fn file_info_and_listing_refusals() {
    assert_eq!(check_info("a.rs", &probe("a.rs")), None);
    let outside = PathProbe { inside_repo: false, ..probe("a.rs") };
    assert_eq!(
        check_info("/etc/passwd", &outside),
        Some(ToolResult::error("Access denied: path outside repository".to_string()))
    );
    let missing = PathProbe { exists: false, ..probe("a.rs") };
    assert_eq!(
        check_info("a.rs", &missing),
        Some(ToolResult::error("File not found: a.rs".to_string()))
    );

    let directory = PathProbe { is_file: false, is_dir: true, ..probe("src") };
    let entries = vec![("b.rs".to_string(), false), ("a".to_string(), true)];
    let scanner = scanner();
    assert_eq!(
        scanner.list_directory("src", &directory, &entries),
        Ok(vec!["a/".to_string(), "b.rs".to_string()])
    );
    assert_eq!(
        list_files(&scanner, "src", &directory, &entries),
        ToolResult::success("a/\nb.rs".to_string())
    );
    let gone = PathProbe { exists: false, inside_repo: false, ..probe("src") };
    assert_eq!(
        scanner.list_directory("src", &gone, &entries),
        Err("Directory not found: src".to_string())
    );
    assert_eq!(
        list_files(&scanner, "src", &gone, &entries),
        ToolResult::error("Directory not found: src".to_string())
    );
    assert_eq!(
        scanner.list_directory("a.rs", &probe("a.rs"), &entries),
        Err("Not a directory: a.rs".to_string())
    );
    let elsewhere = PathProbe { inside_repo: false, ..directory };
    assert_eq!(
        scanner.list_directory("..", &elsewhere, &entries),
        Err("Access denied: path outside repository".to_string())
    );
}

#[test]
fn outcomes_of_the_file_tools() {
    assert_eq!(read_outcome(Ok("text".to_string())), ToolResult::success("text".to_string()));
    assert_eq!(
        read_outcome(Err("permission denied".to_string())),
        ToolResult::error("Failed to read file: permission denied".to_string())
    );
    assert_eq!(
        metadata_failure("gone"),
        ToolResult::error("Failed to get metadata: gone".to_string())
    );
    assert_eq!(
        file_info_outcome("main.rs", 120, 4096),
        ToolResult::success("Rust,120,4096".to_string())
    );
    assert_eq!(
        file_info_outcome("Makefile", 0, 0),
        ToolResult::success("Unknown,0,0".to_string())
    );
    assert_eq!(
        search_outcome(&vec!["a.rs:1".to_string(), "b.rs:7".to_string()]),
        ToolResult::success("a.rs:1\nb.rs:7".to_string())
    );
    assert_eq!(search_outcome(&Vec::new()), ToolResult::success(String::new()));
}

#[test]
fn languages_by_extension() {
    let cases = [
        ("a.rs", "Rust"),
        ("a.py", "Python"),
        ("a.js", "JavaScript"),
        ("a.ts", "TypeScript"),
        ("a.go", "Go"),
        ("A.java", "Java"),
        ("a.c", "C"),
        ("a.h", "C"),
        ("a.cpp", "C++"),
        ("a.hpp", "C++"),
        ("a.rb", "rb"),
        ("a.RS", "RS"),
        ("a.", ""),
        ("Makefile", "Unknown"),
        (".gitignore", "Unknown"),
    ];
    for (name, language) in cases {
        assert_eq!(language_name(name), language, "{:?}", name);
    }
}

#[test]
fn search_adds_hits_up_to_the_limit() {
    let content = "let a = unsafe { x };\nsafe\r\n  unsafe fn f()\nunsafe";
    let mut results = Vec::new();
    search_content(&mut results, "src/a.rs", content, "unsafe", 10);
    assert_eq!(results, vec!["src/a.rs:1", "src/a.rs:3", "src/a.rs:4"]);
    search_content(&mut results, "b.rs", "x\nunsafe\nunsafe\n", "unsafe", 4);
    assert_eq!(results, vec!["src/a.rs:1", "src/a.rs:3", "src/a.rs:4", "b.rs:2"]);
    search_content(&mut results, "c.rs", "unsafe", "unsafe", 4);
    assert_eq!(results.len(), 4);
    let mut none = Vec::new();
    search_content(&mut none, "c.rs", "unsafe", "unsafe", 0);
    assert!(none.is_empty());
    let mut every = Vec::new();
    search_content(&mut every, "d", "a\n\nb", "", 10);
    assert_eq!(every, vec!["d:1", "d:2", "d:3"]);
    assert_eq!(count_lines("a\nb\n"), 2);
    assert_eq!(count_lines(""), 0);
    assert_eq!(count_lines("a\nb\nc"), 3);
}

#[test]
fn listings_are_filtered_marked_and_sorted() {
    let entries = vec![
        ("src".to_string(), true),
        ("Cargo.toml".to_string(), false),
        (".git".to_string(), true),
        ("target".to_string(), true),
        ("README.md".to_string(), false),
        (".env".to_string(), false),
        ("benches".to_string(), true),
    ];
    let here = PathProbe { is_file: false, is_dir: true, ..probe(".") };
    assert_eq!(
        scanner().list_directory(".", &here, &entries),
        Ok(vec![
            "Cargo.toml".to_string(),
            "README.md".to_string(),
            "benches/".to_string(),
            "src/".to_string()
        ])
    );
    assert_eq!(scanner().list_directory(".", &here, &Vec::new()), Ok(Vec::new()));
    assert_eq!(
        list_files(&scanner(), ".", &here, &Vec::new()),
        ToolResult::success(String::new())
    );
}
