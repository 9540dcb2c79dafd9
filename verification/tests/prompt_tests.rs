use askai::prompt::{
    build_system_prompt, build_user_prompt, decimal_text, get_prompt, get_system_info, get_ui_text,
    os_name, Environment, ExecutionHistory, OsFamily, PROMPT_EN, PROMPT_ZH,
};

fn host() -> Environment {
    Environment {
        os: OsFamily::Linux,
        shell: Some(String::from("/bin/bash")),
        term: Some(String::from("xterm")),
        user: None,
        pwd: Some(String::from("/home/me")),
    }
}

#[test]
fn english_instructions_for_en() {
    assert_eq!(get_prompt("en"), PROMPT_EN);
    assert!(get_prompt("en").starts_with("You are a Shell command expert."));
    assert!(get_prompt("en").ends_with("  - User manually terminates\n"));
}

#[test]
fn chinese_instructions_for_every_other_code() {
    assert_eq!(get_prompt("zh"), PROMPT_ZH);
    assert_eq!(get_prompt("fr"), PROMPT_ZH);
    assert_eq!(get_prompt(""), PROMPT_ZH);
    assert_eq!(get_prompt("EN"), PROMPT_ZH);
    assert!(get_prompt("zh").starts_with("\u{4f60}\u{662f}\u{4e00}\u{4e2a}Shell"));
}

#[test]
fn ui_text_in_english() {
    let t = get_ui_text("en");
    assert_eq!(t.thinking, "\u{1f914} Thinking...");
    assert_eq!(t.execute_command_prompt, "Do you want to execute this command?");
    assert_eq!(t.goal_achieved_prompt, "Did the command achieve the expected goal?");
    assert_eq!(t.config_updated, "Configuration updated");
    assert_eq!(t.language_prompt, "Enter language (en/zh)");
}

#[test]
fn ui_text_in_chinese_for_every_other_code() {
    let t = get_ui_text("zh");
    assert_eq!(t.provide_description, "\u{8bf7}\u{63d0}\u{4f9b}\u{64cd}\u{4f5c}\u{63cf}\u{8ff0}");
    assert_eq!(get_ui_text("de"), t);
    assert_ne!(get_ui_text("en"), t);
}

#[test]
fn os_names() {
    assert_eq!(os_name(OsFamily::MacOs), "macOS");
    assert_eq!(os_name(OsFamily::Linux), "Linux");
    assert_eq!(os_name(OsFamily::Windows), "Windows");
    assert_eq!(os_name(OsFamily::Other), "Unknown OS");
}

#[test]
fn system_info_lists_the_host() {
    let expected = "\u{5f53}\u{524d}\u{7cfb}\u{7edf}\u{73af}\u{5883}\u{4fe1}\u{606f}\u{ff1a}\n- \u{64cd}\u{4f5c}\u{7cfb}\u{7edf}: Linux\n- Shell\u{7c7b}\u{578b}: /bin/bash\n- \u{7ec8}\u{7aef}\u{7c7b}\u{578b}: xterm\n- \u{5f53}\u{524d}\u{7528}\u{6237}: Unknown\n- \u{5f53}\u{524d}\u{76ee}\u{5f55}: /home/me\n";
    assert_eq!(get_system_info(&host()), expected);
}

#[test]
fn system_info_falls_back_to_unknown() {
    let env = Environment { os: OsFamily::Other, shell: None, term: None, user: None, pwd: None };
    let info = get_system_info(&env);
    assert_eq!(info.matches("Unknown").count(), 5);
    assert!(info.contains(": Unknown OS\n"));
}

#[test]
fn system_prompt_is_instructions_then_host() {
    let prompt = build_system_prompt("en", &host());
    assert_eq!(prompt, format!("{}\n{}", PROMPT_EN, get_system_info(&host())));
}

#[test]
fn first_user_prompt_holds_the_task_alone() {
    let prompt = build_user_prompt("zh", "list files", None);
    assert_eq!(
        prompt,
        "\u{73b0}\u{5728}\u{ff0c}\u{7528}\u{6237}\u{7684}\u{95ee}\u{9898}\u{4e3a}\u{ff1a}list files\u{ff0c}\u{8bf7}\u{4f60}\u{6839}\u{636e}\u{7528}\u{6237}\u{7684}\u{95ee}\u{9898}\u{751f}\u{6210}\u{5bf9}\u{5e94}\u{7684}shell\u{547d}\u{4ee4}\u{6765}\u{5b9e}\u{73b0}\u{7528}\u{6237}\u{7684}\u{9700}\u{6c42}\u{3002}"
    );
}

#[test]
fn retry_user_prompt_holds_the_outcome() {
    let h = ExecutionHistory {
        command: String::from("ls /nope"),
        output: String::from("ls: cannot access '/nope'"),
        success: false,
        attempt: 1,
    };
    let prompt = build_user_prompt("zh", "list files", Some(&h));
    let expected = "\u{7528}\u{6237}\u{7684}\u{95ee}\u{9898}\u{4e3a}\u{ff1a}list files\n\u{4e0a}\u{4e00}\u{6b21}\u{6267}\u{884c}\u{7684}\u{547d}\u{4ee4}\u{662f}\u{ff1a}ls /nope\n\u{6267}\u{884c}\u{7ed3}\u{679c}\u{662f}\u{ff1a}ls: cannot access '/nope'\n\u{6267}\u{884c}\u{662f}\u{5426}\u{6210}\u{529f}\u{ff1a}false\n\u{8fd9}\u{662f}\u{7b2c}1\u{6b21}\u{5c1d}\u{8bd5}\u{3002}\n\u{8bf7}\u{6839}\u{636e}\u{4e0a}\u{8ff0}\u{4fe1}\u{606f}\u{5206}\u{6790}\u{6267}\u{884c}\u{7ed3}\u{679c}\u{ff0c}\u{5224}\u{65ad}\u{662f}\u{5426}\u{8fbe}\u{5230}\u{9884}\u{671f}\u{76ee}\u{6807}\u{ff0c}\u{5982}\u{679c}\u{6ca1}\u{6709}\u{8fbe}\u{5230}\u{76ee}\u{6807}\u{ff0c}\u{5206}\u{6790}\u{539f}\u{56e0}\u{5e76}\u{751f}\u{6210}\u{6539}\u{8fdb}\u{7684}\u{547d}\u{4ee4}\u{3002}";
    assert_eq!(prompt, expected);
    assert!(prompt.contains("ls /nope"));
    assert!(prompt.contains("ls: cannot access '/nope'"));
}

#[test]
fn retry_user_prompt_tells_success_and_number() {
    let h = ExecutionHistory {
        command: String::from("ls"),
        output: String::from("a\nb\n"),
        success: true,
        attempt: 2,
    };
    let prompt = build_user_prompt("zh", "count files", Some(&h));
    assert!(prompt.contains("\u{ff1a}true\n"));
    assert!(prompt.contains("\u{7b2c}2\u{6b21}"));
    assert!(prompt.contains("a\nb\n"));
}

#[test]
fn first_user_prompt_names_no_earlier_command() {
    let prompt = build_user_prompt("zh", "list files", None);
    assert!(!prompt.contains("\u{4e0a}\u{4e00}\u{6b21}"));
}

#[test]
fn decimal_text_writes_numbers() {
    assert_eq!(decimal_text(0), "0");
    assert_eq!(decimal_text(7), "7");
    assert_eq!(decimal_text(10), "10");
    assert_eq!(decimal_text(305), "305");
    assert_eq!(decimal_text(u32::MAX), "4294967295");
}

#[test]
fn both_prompts_at_once() {
    let (system, user) = askai::prompt::build_prompts("zh", "list files", None, &host());
    assert_eq!(system, build_system_prompt("zh", &host()));
    assert_eq!(user, build_user_prompt("zh", "list files", None));
}

#[test]
fn first_user_prompt_in_english() {
    assert_eq!(
        build_user_prompt("en", "list files", None),
        "Now, the user's request is: list files\nPlease generate the shell command that fulfils this request."
    );
}

#[test]
fn retry_user_prompt_in_english() {
    let h = ExecutionHistory {
        command: String::from("ls /nope"),
        output: String::from("ls: cannot access '/nope'"),
        success: false,
        attempt: 2,
    };
    let prompt = build_user_prompt("en", "list files", Some(&h));
    assert_eq!(
        prompt,
        "The user's request is: list files\nThe command run last was: ls /nope\nIts output was: ls: cannot access '/nope'\nDid it succeed: false\nThis was attempt number 2.\nBased on the above, analyze the result and decide whether the expected goal was achieved. If it was not, analyze why and generate an improved command."
    );
}

#[test]
fn user_prompt_follows_the_language() {
    let h = ExecutionHistory {
        command: String::from("ls"),
        output: String::from("x"),
        success: true,
        attempt: 1,
    };
    assert_ne!(build_user_prompt("en", "t", None), build_user_prompt("zh", "t", None));
    assert_ne!(build_user_prompt("en", "t", Some(&h)), build_user_prompt("zh", "t", Some(&h)));
    assert_eq!(build_user_prompt("fr", "t", None), build_user_prompt("zh", "t", None));
    assert_eq!(build_user_prompt("", "t", Some(&h)), build_user_prompt("zh", "t", Some(&h)));
    assert_eq!(build_user_prompt("EN", "t", None), build_user_prompt("zh", "t", None));
}

#[test]
fn user_phrases_by_language() {
    let en = askai::prompt::get_user_phrases("en");
    let zh = askai::prompt::get_user_phrases("zh");
    assert_eq!(en.task, "The user's request is: ");
    assert_eq!(zh.task, "\u{7528}\u{6237}\u{7684}\u{95ee}\u{9898}\u{4e3a}\u{ff1a}");
    assert_eq!(askai::prompt::get_user_phrases("ja"), zh);
    assert_ne!(en, zh);
}

#[test]
fn both_prompts_follow_the_language() {
    let (system, user) = askai::prompt::build_prompts("en", "list files", None, &host());
    assert_eq!(system, build_system_prompt("en", &host()));
    assert_eq!(user, build_user_prompt("en", "list files", None));
    assert!(user.starts_with("Now, the user's request is: "));
}
