use nav_router::classify::term_command_from_client_list;

const HEADER: &str = "CLIENT_ID ZELLIJ_PANE_ID RUNNING_COMMAND\n";

fn listing(row: &str) -> String {
    format!("{}{}", HEADER, row)
}

#[test]
fn classify_nvim_path() {
    let out = listing("1 terminal_2 /usr/bin/nvim");
    assert_eq!(term_command_from_client_list(&out), Some("nvim".to_string()));
}

#[test]
fn classify_vim_path() {
    let out = listing("1   terminal_0   /opt/local/bin/vim\n2 terminal_1 /bin/bash\n");
    assert_eq!(term_command_from_client_list(&out), Some("vim".to_string()));
}

#[test]
fn classify_bare_name() {
    let out = listing("1 terminal_3 htop");
    assert_eq!(term_command_from_client_list(&out), Some("htop".to_string()));
}

#[test]
fn classify_not_available_is_absent() {
    let out = listing("1 terminal_2 N/A");
    assert_eq!(term_command_from_client_list(&out), None);
}

#[test]
fn classify_plugin_pane_is_absent() {
    let out = listing("1 plugin_4 /usr/bin/nvim");
    assert_eq!(term_command_from_client_list(&out), None);
}

#[test]
fn classify_header_only_is_absent() {
    assert_eq!(term_command_from_client_list("CLIENT_ID ZELLIJ_PANE_ID RUNNING_COMMAND"), None);
    assert_eq!(term_command_from_client_list(""), None);
}

#[test]
fn classify_empty_data_line_is_absent() {
    assert_eq!(term_command_from_client_list(HEADER), None);
}

#[test]
fn classify_too_few_columns_is_absent() {
    let out = listing("1 terminal_2");
    assert_eq!(term_command_from_client_list(&out), None);
}

#[test]
fn classify_only_first_data_line() {
    let out = listing("1 plugin_0 N/A\n2 terminal_1 /usr/bin/nvim");
    assert_eq!(term_command_from_client_list(&out), None);
}

#[test]
fn classify_tabs_and_trailing_slash() {
    let out = listing("\t1\tterminal_5\t/usr/bin/\r\n");
    assert_eq!(term_command_from_client_list(&out), Some(String::new()));
}

#[test]
fn classify_command_with_arguments() {
    let out = listing("1 terminal_2 /usr/bin/nvim notes.txt");
    assert_eq!(term_command_from_client_list(&out), Some("nvim".to_string()));
}
