use minimalist::command::join_commands;

#[test]
fn two_commands_join_in_order() {
    assert_eq!(join_commands(&["echo a", "echo b"]), "echo a;echo b");
}

#[test]
fn empty_batch_is_empty_line() {
    let none: [&str; 0] = [];
    assert_eq!(join_commands(&none), "");
}

#[test]
fn single_command_is_kept() {
    assert_eq!(join_commands(&["uname -a"]), "uname -a");
}

#[test]
fn three_commands_with_empty_one() {
    assert_eq!(join_commands(&["cd /tmp", "", "ls -l"]), "cd /tmp;;ls -l");
}

#[test]
fn multibyte_commands_join() {
    assert_eq!(join_commands(&["echo 'héllo'", "echo 日本"]), "echo 'héllo';echo 日本");
}
