use dev_scope::command::{extract_command_path, DoctorCommand, DoctorCommands};

#[test]
fn from_vec_str() {
    let input = vec!["echo 'foo'", "false"];

    let actual = DoctorCommands::from(input.clone());

    let expected = DoctorCommands::from(vec!["echo 'foo'", "false"]);
    assert_eq!(expected, actual)
}

#[test]
fn from_commands_inserts_execution_path() {
    let base_path = "/foo/bar";
    let input = ["echo 'foo'", "baz/qux", "./qux"];

    let actual = DoctorCommands::from_commands(
        base_path,
        "/some/working_dir",
        &input.iter().map(|cmd| cmd.to_string()).collect::<Vec<String>>(),
    )
    .expect("Expected Ok");

    let expected = DoctorCommands::from(vec!["echo 'foo'", "baz/qux", "/foo/bar/qux"]);
    assert_eq!(expected, actual)
}

#[test]
fn from_commands_inserts_working_dir() {
    let containing_dir = "/foo/bar";
    let working_dir = "/some/working_dir";
    let commands = ["{{ working_dir }}/foo.sh", "./bar.sh"]
        .iter()
        .map(|cmd| cmd.to_string())
        .collect::<Vec<String>>();

    let actual =
        DoctorCommands::from_commands(containing_dir, working_dir, &commands).expect("Expected Ok");

    let expected = DoctorCommands::from(vec!["/some/working_dir/foo.sh", "/foo/bar/bar.sh"]);

    assert_eq!(expected, actual)
}

#[test]
fn try_new_with_simple_command() {
    let actual =
        DoctorCommand::try_new("/foo/bar", "/some/working_dir", "echo hello").expect("Expected Ok");
    let expected = DoctorCommand::from_str("echo hello");
    assert_eq!(expected, actual);
}

#[test]
fn try_new_with_working_dir_template() {
    let actual = DoctorCommand::try_new("/foo/bar", "/some/working_dir", "{{ working_dir }}/script.sh")
        .expect("Expected Ok");
    let expected = DoctorCommand::from_str("/some/working_dir/script.sh");
    assert_eq!(expected, actual);
}

#[test]
fn try_new_with_relative_path() {
    let actual =
        DoctorCommand::try_new("/foo/bar", "/some/working_dir", "./script.sh").expect("Expected Ok");
    let expected = DoctorCommand::from_str("/foo/bar/script.sh");
    assert_eq!(expected, actual);
}

#[test]
fn try_new_with_relative_path_and_args() {
    let actual = DoctorCommand::try_new("/foo/bar", "/some/working_dir", "./script.sh --verbose")
        .expect("Expected Ok");
    let expected = DoctorCommand::from_str("/foo/bar/script.sh --verbose");
    assert_eq!(expected, actual);
}

#[test]
fn try_new_with_template_and_relative_path() {
    let script = ["check", "sh"].join(".");
    let command = format!("{{{{ working_dir }}}}/{} && ./validate.sh", script);
    let actual = DoctorCommand::try_new("/project/root", "/build/dir", &command).expect("Expected Ok");
    // only the first word is qualified against the containing directory
    let expected = DoctorCommand::from_str(&format!("/build/dir/{} && ./validate.sh", script));
    assert_eq!(expected, actual);
}

#[test]
fn try_new_with_absolute_path() {
    let actual = DoctorCommand::try_new("/foo/bar", "/some/working_dir", "/usr/bin/env python3 test.py")
        .expect("Expected Ok");
    let expected = DoctorCommand::from_str("/usr/bin/env python3 test.py");
    assert_eq!(expected, actual);
}

#[test]
fn try_new_with_unknown_template() {
    let actual = DoctorCommand::try_new(
        "/foo/bar",
        "/some/working_dir",
        "{{ unknown_template }}/script.sh",
    )
    .expect("Expected Ok");
    // unknown variables render as nothing
    let expected = DoctorCommand::from_str("/script.sh");
    assert_eq!(expected, actual);
}

#[test]
fn try_new_with_nested_relative_path() {
    let actual = DoctorCommand::try_new("/project/root", "/build/dir", "./scripts/build.sh")
        .expect("Expected Ok");
    let expected = DoctorCommand::from_str("/project/root/scripts/build.sh");
    assert_eq!(expected, actual);
}

#[test]
fn try_new_with_empty_command() {
    let actual = DoctorCommand::try_new("/foo/bar", "/some/working_dir", "").expect("Expected Ok");
    let expected = DoctorCommand::from_str("");
    assert_eq!(expected, actual);
}

#[test]
fn try_new_with_complex_command() {
    let actual = DoctorCommand::try_new(
        "/project",
        "/work",
        "cd {{ working_dir }} && ./build.sh && echo 'done'",
    )
    .expect("Expected Ok");
    let expected = DoctorCommand::from_str("cd /work && ./build.sh && echo 'done'");
    assert_eq!(expected, actual);
}

#[test]
fn try_new_with_multiple_templates() {
    let actual = DoctorCommand::try_new(
        "/project",
        "/build",
        "{{ working_dir }}/setup.sh && {{ working_dir }}/build.sh",
    )
    .expect("Expected Ok");
    let expected = DoctorCommand::from_str("/build/setup.sh && /build/build.sh");
    assert_eq!(expected, actual);
}

#[test]
fn try_new_with_whitespace_only_command() {
    let actual = DoctorCommand::try_new("/foo/bar", "/some/working_dir", "   ").expect("Expected Ok");
    let expected = DoctorCommand::from_str("   ");
    assert_eq!(expected, actual);
}

#[test]
fn try_new_with_template_error_fails() {
    let actual = DoctorCommand::try_new("/foo/bar", "/some/working_dir", "{{ unclosed");
    assert!(actual.is_err());
}

#[test]
fn try_new_expands_no_tilde_in_middle_of_word() {
    let actual = DoctorCommand::try_new("/foo/bar", "/w", "echo a~b").expect("Expected Ok");
    assert_eq!(DoctorCommand::from_str("echo a~b"), actual);
}

#[test]
fn iter_returns_command_references() {
    let commands = DoctorCommands::from(vec!["echo hello", "ls -la", "pwd"]);

    let command_refs: Vec<&DoctorCommand> = commands.iter().collect();

    assert_eq!(command_refs.len(), 3);
    assert_eq!(command_refs[0].text(), "echo hello");
    assert_eq!(command_refs[1].text(), "ls -la");
    assert_eq!(command_refs[2].text(), "pwd");
}

#[test]
fn into_iter_returns_command_references() {
    let commands = DoctorCommands::from(vec!["echo hello", "ls -la", "pwd"]);

    let command_refs: Vec<&DoctorCommand> = (&commands).into_iter().collect();

    assert_eq!(command_refs.len(), 3);
    assert_eq!(command_refs[0].text(), "echo hello");
    assert_eq!(command_refs[1].text(), "ls -la");
    assert_eq!(command_refs[2].text(), "pwd");
}

#[test]
fn iter_works_with_for_loop() {
    let commands = DoctorCommands::from(vec!["echo hello", "ls -la", "pwd"]);
    let mut collected = Vec::new();

    for command in &commands {
        collected.push(command.text());
    }

    assert_eq!(collected, vec!["echo hello", "ls -la", "pwd"]);
}

#[test]
fn iter_works_with_empty_commands() {
    let commands = DoctorCommands::from(vec![]);

    let command_refs: Vec<&DoctorCommand> = commands.iter().collect();

    assert_eq!(command_refs.len(), 0);
}

#[test]
fn iter_works_with_single_command() {
    let commands = DoctorCommands::from(vec!["single command"]);

    let command_refs: Vec<&DoctorCommand> = commands.iter().collect();

    assert_eq!(command_refs.len(), 1);
    assert_eq!(command_refs[0].text(), "single command");
}

#[test]
fn test_extract_command_path() {
    let base_path = "/foo/bar";
    assert_eq!(
        "/foo/bar/scripts/foo.sh",
        extract_command_path(base_path, "./scripts/foo.sh")
    );
    assert_eq!("/scripts/foo.sh", extract_command_path(base_path, "/scripts/foo.sh"));
    assert_eq!("foo", extract_command_path(base_path, "foo"));
    assert_eq!("foo bar", extract_command_path(base_path, "foo bar"));
}

#[test]
fn extract_command_path_cleans_parent_segments() {
    assert_eq!("/foo/x.sh", extract_command_path("/foo/bar", "../x.sh"));
    assert_eq!("/foo/bar/x.sh -v", extract_command_path("/foo/bar/", "./x.sh -v"));
}

#[test]
fn list_builds_exactly_when_each_command_builds() {
    let good = vec!["echo a".to_string(), "{{ working_dir }}/run".to_string()];
    let built = DoctorCommands::from_commands("/foo", "/work", &good).expect("Expected Ok");
    assert_eq!(2, built.len());
    for (i, c) in good.iter().enumerate() {
        let single = DoctorCommand::try_new("/foo", "/work", c).expect("Expected Ok");
        assert_eq!(single.text(), built.as_slice()[i].text());
    }
    let bad = vec!["echo a".to_string(), "{{ broken".to_string()];
    assert!(DoctorCommand::try_new("/foo", "/work", &bad[1]).is_err());
    assert!(DoctorCommands::from_commands("/foo", "/work", &bad).is_err());
}

#[test]
fn plain_command_is_used_as_written() {
    for text in ["echo hello", "/usr/bin/env python3 test.py", "   ", "", "a { b } c"] {
        let c = DoctorCommand::try_new("/x", "/y", text).expect("Expected Ok");
        assert_eq!(DoctorCommand::from_str(text), c);
    }
}

#[test]
fn every_tilde_word_gets_the_home_directory() {
    let c = DoctorCommand::try_new_with_home("/project", "/work", "~/script.sh", "/home/me").expect("Expected Ok");
    assert_eq!(DoctorCommand::from_str("/home/me/script.sh"), c);
    let c = DoctorCommand::try_new_with_home("/project", "/work", "cp ~/source.txt ~/dest.txt", "/home/me")
        .expect("Expected Ok");
    assert_eq!(DoctorCommand::from_str("cp /home/me/source.txt /home/me/dest.txt"), c);
    let c = DoctorCommand::try_new_with_home("/project", "/work", "ls ~ ~other a~b", "/home/me").expect("Expected Ok");
    assert_eq!(DoctorCommand::from_str("ls /home/me ~other a~b"), c);
}

#[test]
fn list_with_home_matches_single_commands() {
    let cmds = vec!["cp ~/a ~/b".to_string(), "./run.sh ~/x".to_string(), "{{ working_dir }}/go".to_string()];
    let list = DoctorCommands::from_commands_with_home("/project", "/work", &cmds, "/h").expect("Expected Ok");
    for (i, c) in cmds.iter().enumerate() {
        let single = DoctorCommand::try_new_with_home("/project", "/work", c, "/h").expect("Expected Ok");
        assert_eq!(single, list.as_slice()[i]);
    }
    assert_eq!("cp /h/a /h/b", list.as_slice()[0].text());
    assert_eq!("/project/run.sh /h/x", list.as_slice()[1].text());
}
