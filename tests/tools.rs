use coretilus::tools::{filter_params_regex, parse_args};

fn strings(v: &[&str]) -> Vec<String> {
    v.iter().map(|s| s.to_string()).collect()
}

#[test]
fn parse_args_detects_flags_and_params() {
    let args = strings(&["prog", "-f", "--help", "file.txt"]);
    let (flags, params) = parse_args(
        args.clone(),
        &['f', 'v'],
        &["help", "version"],
        &["file.txt", "file2.txt"],
    );
    assert!(flags.contains(&"f".to_string()));
    assert!(flags.contains(&"help".to_string()));
    assert!(!flags.contains(&"v".to_string()));
    assert!(!flags.contains(&"version".to_string()));
    assert_eq!(params, vec!["file.txt"]);

    let (flags, params) = parse_args(args, &['p', 'r'], &["bad"], &["file.txt", "file2.txt"]);
    assert!(flags.is_empty());
    assert_eq!(params, vec!["file.txt"]);
}

#[test]
fn parse_args_combined_short_flags_listed_once() {
    let args = strings(&["-aFl", "-la", "-", "--", "--a", "x"]);
    let (flags, params) = parse_args(args, &['a', 'l', 'F'], &["a"], &["x", "-"]);
    let mut sorted = flags.clone();
    sorted.sort();
    assert_eq!(sorted, vec!["F", "a", "l"]);
    assert_eq!(params, vec!["-", "x"]);
}

#[test]
fn filter_params_regex_keeps_matching_arguments() {
    let args = strings(&["file.txt", "image.png", "data.csv", "notes.md"]);
    assert_eq!(filter_params_regex(args.clone(), &["txt$"]), vec!["file.txt"]);
    assert_eq!(
        filter_params_regex(args.clone(), &["png$", "md$"]),
        vec!["image.png", "notes.md"]
    );
    assert_eq!(filter_params_regex(args.clone(), &[".*"]), args);
    assert!(filter_params_regex(args.clone(), &["foo(bar"]).is_empty());
    assert_eq!(
        filter_params_regex(args, &["foo(bar", "^data"]),
        vec!["data.csv"]
    );
}

#[test]
fn filter_params_regex_domains() {
    let params = [r"^(?:[a-zA-Z0-9](?:[a-zA-Z0-9-]{0,61}[a-zA-Z0-9])?\.)+[a-zA-Z]{2,}$"];
    let args = strings(&["dog", "debian.org", "-x"]);
    assert_eq!(filter_params_regex(args, &params), vec!["debian.org"]);
}
