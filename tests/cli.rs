use dft::cli::{get_config_path, parse_valid_file, DftCli};

#[test]
fn test_non_existent_file() {
    let file = "/tmp/does-not-exist.sql";
    let r = parse_valid_file(file, false, false);
    assert_eq!(r, Err(format!("File does not exist: '{}'", file)));
}

#[test]
fn test_one_existent_and_one_non_existent_file() {
    let present = "/tmp/present.sql";
    let missing = "/tmp/missing.sql";
    assert_eq!(parse_valid_file(present, true, true), Ok(present.to_string()));
    assert_eq!(parse_valid_file(missing, false, false), Err(format!("File does not exist: '{}'", missing)));
}

#[test]
fn directory_is_not_a_file() {
    assert_eq!(parse_valid_file("/tmp", true, false), Err("Exists but is not a file: '/tmp'".to_string()));
}

#[test]
fn config_path_given_or_in_data_dir() {
    let given = "/etc/dft.toml".to_string();
    assert_eq!(get_config_path(Some(&given), &"/home/u/.local/share/dft".to_string()), "/etc/dft.toml");
    assert_eq!(get_config_path(None, &"/home/u/.local/share/dft".to_string()), "/home/u/.local/share/dft/config.toml");
    assert_eq!(get_config_path(None, &"/data/".to_string()), "/data/config.toml");
    assert_eq!(get_config_path(None, &String::new()), "config.toml");
    let cli = DftCli { file: vec![], config: None };
    assert_eq!(cli.get_config(&"/d".to_string()), "/d/config.toml");
}
