use baker::template::operation::TemplateOperation;

#[test]
fn operation_it_works_1() {
    let source = "/tmp/test/file.txt".to_string();
    let target = "/tmp/test/file.txt".to_string();
    let user_confirmed_overwrite = true;
    let expected =
        format!("Copying '{}' to '{}' (overwriting existing file)", &source, &target);

    let copy = TemplateOperation::Copy { source, target, target_exists: true };
    let actual = copy.get_message(user_confirmed_overwrite);
    assert_eq!(actual, expected);
}

#[test]
fn it_works_2() {
    let source = "/tmp/test/file.txt".to_string();
    let target = "/tmp/test/file.txt".to_string();
    let user_confirmed_overwrite = false;
    let expected =
        format!("Skipping copy of '{}' to '{}' (target already exists)", &source, &target);

    let copy = TemplateOperation::Copy { source, target, target_exists: true };
    let actual = copy.get_message(user_confirmed_overwrite);
    assert_eq!(actual, expected);
}

#[test]
fn operation_it_works_3() {
    let source = "/tmp/test/file.txt".to_string();
    let target = "/tmp/test/file.txt".to_string();
    let user_confirmed_overwrite = false;
    let expected = format!("Copying '{}' to '{}'", &source, &target);

    let copy = TemplateOperation::Copy { source, target, target_exists: false };
    let actual = copy.get_message(user_confirmed_overwrite);
    assert_eq!(actual, expected);
}

#[test]
fn operation_it_works_4() {
    let target = "/tmp/test/file.txt".to_string();
    let user_confirmed_overwrite = false;
    let expected = format!("Skipping directory creation '{}' (already exists)", &target);

    let copy = TemplateOperation::CreateDirectory { target, target_exists: true };
    let actual = copy.get_message(user_confirmed_overwrite);
    assert_eq!(actual, expected);
}

#[test]
fn operation_it_works_5() {
    let target = "/tmp/test/file.txt".to_string();
    let user_confirmed_overwrite = false;
    let expected = format!("Creating directory '{}'", &target);

    let copy = TemplateOperation::CreateDirectory { target, target_exists: false };
    let actual = copy.get_message(user_confirmed_overwrite);
    assert_eq!(actual, expected);
}

#[test]
fn operation_it_works_6() {
    let target = "/tmp/test/file.txt".to_string();
    let user_confirmed_overwrite = true;
    let expected = format!("Writing to '{}' (overwriting existing file)", &target);

    let copy =
        TemplateOperation::Write { target, target_exists: true, content: "".to_string() };
    let actual = copy.get_message(user_confirmed_overwrite);
    assert_eq!(actual, expected);
}

#[test]
fn operation_it_works_7() {
    let target = "/tmp/test/file.txt".to_string();
    let user_confirmed_overwrite = false;
    let expected = format!("Skipping write to '{}' (target already exists)", &target);

    let copy =
        TemplateOperation::Write { target, target_exists: true, content: "".to_string() };
    let actual = copy.get_message(user_confirmed_overwrite);
    assert_eq!(actual, expected);
}

#[test]
fn operation_it_works_8() {
    let target = "/tmp/test/file.txt".to_string();
    let user_confirmed_overwrite = false;
    let expected = format!("Writing to '{}'", &target);

    let copy =
        TemplateOperation::Write { target, target_exists: false, content: "".to_string() };
    let actual = copy.get_message(user_confirmed_overwrite);
    assert_eq!(actual, expected);
}

#[test]
fn operation_it_works_9() {
    let source = "/tmp/test/file.txt".to_string();
    let user_confirmed_overwrite = false;
    let expected = format!("Ignoring '{}' (matches ignore pattern)", &source);

    let copy = TemplateOperation::Ignore { source };
    let actual = copy.get_message(user_confirmed_overwrite);
    assert_eq!(actual, expected);
}

#[test]
fn write_message_does_not_depend_on_the_answer_when_nothing_is_replaced() {
    let write = TemplateOperation::Write {
        target: "out/a.txt".to_string(),
        target_exists: false,
        content: "x".to_string(),
    };
    assert_eq!(write.get_message(true), "Writing to 'out/a.txt'");
    assert_eq!(write.get_message(false), "Writing to 'out/a.txt'");
}
