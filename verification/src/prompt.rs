//! The prompt builder: the instructions and the user message that go to the
//! completion backend, and the texts shown to the operator.

use vstd::prelude::*;
use vstd::string::StringExecFns;
use crate::text::{contains_text, occurs_at, same_text};

verus! {

/// The instructions for the backend, in English.
pub const PROMPT_EN: &'static str = r#"You are a Shell command expert. Please generate or optimize shell commands based on user needs and execution history.

Requirements:
- For first execution (no history):
  - Generate an executable shell command

- If there's execution history:
  - Analyze the previous command's execution result
  - Determine if the expected goal was achieved
  - If the goal wasn't achieved, analyze possible reasons and generate an improved command
  - Include analysis results and improvement suggestions in your response

- If you need to write code or implement functionality that shell can't directly accomplish:
  - You can use Python scripts, for example:
cat << 'EOF' > hello.py
print("Hello, World!")
# ...
EOF
cat << 'EOF' > requirements.txt
# List all packages and versions
...
EOF
python -m venv venv
source venv/bin/activate
pip install -r requirements.txt
python hello.py

- Always follow these rules:
  - Commands should be as generic and comprehensive as possible, prioritizing built-in terminal commands over third-party ones
  - Ensure all command parameters are correct and exist
  - Don't use code block markers or other formatting markers

- Termination conditions:
  - Command executes successfully and achieves the expected goal
  - Number of consecutive failures exceeds the limit
  - User manually terminates
"#;

/// The instructions for the backend, in Chinese.
pub const PROMPT_ZH: &'static str = r#"你是一个Shell命令专家，请根据用户的需求和历史执行结果生成或优化shell命令。

要求：
- 如果是首次执行（没有历史记录）：
  - 生成一个可执行的shell命令

- 如果有历史执行记录：
  - 分析上一次命令的执行结果
  - 判断是否达到了预期目标
  - 如果未达到目标，分析可能的原因并生成改进的命令
  - 在响应中包含分析结果和改进建议

- 如果需要写代码或实现shell无法直接完成的功能：
  - 可以使用python脚本方式，例如：
cat << 'EOF' > hello.py
print("Hello, World!")
# ...
EOF
cat << 'EOF' > requirements.txt
# 列出所有的包和版本
...
EOF
python -m venv venv
source venv/bin/activate
pip install -r requirements.txt
python hello.py

- 不管什么时候，你必须遵守的：
  - 命令应该尽可能通用和全面，优先使用终端自带的非第三方语句
  - 确保命令的所有参数都是正确且存在的
  - 不要使用代码块标记或其他格式标记

- 终止条件：
  - 命令执行成功且达到预期目标
  - 连续失败次数超过限制
  - 用户手动终止
"#;

/// The outcome of the attempt that came before: the one thing a retry is told.
#[derive(Debug, Clone, PartialEq, Eq)]
pub struct ExecutionHistory {
    pub command: String,
    pub output: String,
    pub success: bool,
    pub attempt: u32,
}

/// An `ExecutionHistory` as plain values.
pub struct HistoryView {
    pub command: Seq<char>,
    pub output: Seq<char>,
    pub success: bool,
    pub attempt: nat,
}

impl View for ExecutionHistory {
    type V = HistoryView;

    open spec fn view(&self) -> HistoryView {
        HistoryView {
            command: self.command@,
            output: self.output@,
            success: self.success,
            attempt: self.attempt as nat,
        }
    }
}

/// The texts shown to the operator.
#[derive(Debug, Clone, Copy, PartialEq, Eq)]
pub struct UiText {
    pub thinking: &'static str,
    pub generated_command: &'static str,
    pub dangerous_command_warning: &'static str,
    pub execute_command_prompt: &'static str,
    pub executing_command: &'static str,
    pub command_success: &'static str,
    pub command_failure: &'static str,
    pub goal_achieved_prompt: &'static str,
    pub max_attempts_reached: &'static str,
    pub first_run_config: &'static str,
    pub config_saved: &'static str,
    pub base_url_prompt: &'static str,
    pub api_key_prompt: &'static str,
    pub model_prompt: &'static str,
    pub language_prompt: &'static str,
    pub provide_description: &'static str,
    pub config_updated: &'static str,
}

/// The operator's texts in English.
pub open spec fn ui_text_en() -> UiText {
    UiText {
        thinking: "🤔 Thinking...",
        generated_command: "📝 Generated command:",
        dangerous_command_warning: "⚠️  Warning: Potentially dangerous command detected, execution refused!",
        execute_command_prompt: "Do you want to execute this command?",
        executing_command: "🚀 Executing command...",
        command_success: "✅ Command executed successfully!",
        command_failure: "❌ Command execution failed:",
        goal_achieved_prompt: "Did the command achieve the expected goal?",
        max_attempts_reached: "⚠️  Maximum number of attempts reached, program terminated.",
        first_run_config: "⚙️  First run requires configuration",
        config_saved: "✅ Configuration saved",
        base_url_prompt: "Enter API base URL",
        api_key_prompt: "Enter API key",
        model_prompt: "Enter model name",
        language_prompt: "Enter language (en/zh)",
        provide_description: "Please provide an operation description",
        config_updated: "Configuration updated",
    }
}

/// The operator's texts in Chinese.
pub open spec fn ui_text_zh() -> UiText {
    UiText {
        thinking: "🤔 正在思考中...",
        generated_command: "📝 生成的命令：",
        dangerous_command_warning: "⚠️  警告：检测到潜在的危险命令，拒绝执行！",
        execute_command_prompt: "是否要执行这个命令？",
        executing_command: "🚀 正在执行命令...",
        command_success: "✅ 命令执行成功！",
        command_failure: "❌ 命令执行失败：",
        goal_achieved_prompt: "命令是否达到了预期目标？",
        max_attempts_reached: "⚠️  已达到最大尝试次数，程序终止。",
        first_run_config: "⚙️  首次运行需要进行配置",
        config_saved: "✅ 配置已保存",
        base_url_prompt: "请输入API基础URL",
        api_key_prompt: "请输入API密钥",
        model_prompt: "请输入模型名称",
        language_prompt: "请输入语言 (en/zh)",
        provide_description: "请提供操作描述",
        config_updated: "配置已更新",
    }
}

/// Whether a language code asks for English; every other code gives Chinese.
pub open spec fn is_english(language: Seq<char>) -> bool {
    language == "en"@
}

/// The operator's texts for a language code.
pub fn get_ui_text(language: &str) -> (texts: UiText)
    ensures
        texts == if is_english(language@) {
            ui_text_en()
        } else {
            ui_text_zh()
        },
{
    if same_text(language, "en") {
        UiText {
            thinking: "🤔 Thinking...",
            generated_command: "📝 Generated command:",
            dangerous_command_warning: "⚠️  Warning: Potentially dangerous command detected, execution refused!",
            execute_command_prompt: "Do you want to execute this command?",
            executing_command: "🚀 Executing command...",
            command_success: "✅ Command executed successfully!",
            command_failure: "❌ Command execution failed:",
            goal_achieved_prompt: "Did the command achieve the expected goal?",
            max_attempts_reached: "⚠️  Maximum number of attempts reached, program terminated.",
            first_run_config: "⚙️  First run requires configuration",
            config_saved: "✅ Configuration saved",
            base_url_prompt: "Enter API base URL",
            api_key_prompt: "Enter API key",
            model_prompt: "Enter model name",
            language_prompt: "Enter language (en/zh)",
            provide_description: "Please provide an operation description",
            config_updated: "Configuration updated",
        }
    } else {
        UiText {
            thinking: "🤔 正在思考中...",
            generated_command: "📝 生成的命令：",
            dangerous_command_warning: "⚠️  警告：检测到潜在的危险命令，拒绝执行！",
            execute_command_prompt: "是否要执行这个命令？",
            executing_command: "🚀 正在执行命令...",
            command_success: "✅ 命令执行成功！",
            command_failure: "❌ 命令执行失败：",
            goal_achieved_prompt: "命令是否达到了预期目标？",
            max_attempts_reached: "⚠️  已达到最大尝试次数，程序终止。",
            first_run_config: "⚙️  首次运行需要进行配置",
            config_saved: "✅ 配置已保存",
            base_url_prompt: "请输入API基础URL",
            api_key_prompt: "请输入API密钥",
            model_prompt: "请输入模型名称",
            language_prompt: "请输入语言 (en/zh)",
            provide_description: "请提供操作描述",
            config_updated: "配置已更新",
        }
    }
}

/// The instructions for a language code.
pub open spec fn instructions(language: Seq<char>) -> Seq<char> {
    if is_english(language) {
        PROMPT_EN@
    } else {
        PROMPT_ZH@
    }
}

/// The instructions for the backend in the language asked for.
pub fn get_prompt(language: &str) -> (prompt: &'static str)
    ensures
        prompt@ == instructions(language@),
{
    if same_text(language, "en") {
        PROMPT_EN
    } else {
        PROMPT_ZH
    }
}

/// The operating-system family of the host.
#[derive(Debug, Clone, Copy, PartialEq, Eq, Structural)]
pub enum OsFamily {
    MacOs,
    Linux,
    Windows,
    Other,
}

/// What is known of the host when a prompt is built. A value that could not
/// be read is `None`.
#[derive(Debug, Clone, PartialEq, Eq)]
pub struct Environment {
    pub os: OsFamily,
    pub shell: Option<String>,
    pub term: Option<String>,
    pub user: Option<String>,
    pub pwd: Option<String>,
}

/// The name under which an operating-system family is reported.
pub open spec fn os_label(os: OsFamily) -> Seq<char> {
    match os {
        OsFamily::MacOs => "macOS"@,
        OsFamily::Linux => "Linux"@,
        OsFamily::Windows => "Windows"@,
        OsFamily::Other => "Unknown OS"@,
    }
}

/// A value of the environment, or `Unknown` where it could not be read.
pub open spec fn or_unknown(value: Option<String>) -> Seq<char> {
    match value {
        Some(text) => text@,
        None => "Unknown"@,
    }
}

/// The report on the host that closes the instructions.
pub open spec fn system_info(env: Environment) -> Seq<char> {
    "当前系统环境信息：\n- 操作系统: "@ + os_label(env.os) + "\n- Shell类型: "@ + or_unknown(env.shell)
        + "\n- 终端类型: "@ + or_unknown(env.term) + "\n- 当前用户: "@ + or_unknown(env.user)
        + "\n- 当前目录: "@ + or_unknown(env.pwd) + "\n"@
}

/// The whole system text: the instructions, a line break, the report on the host.
pub open spec fn system_text(language: Seq<char>, env: Environment) -> Seq<char> {
    instructions(language) + "\n"@ + system_info(env)
}

/// The fixed pieces of the user messages in one language.
#[derive(Debug, Clone, Copy, PartialEq, Eq)]
pub struct UserPhrases {
    /// What stands before the task in the message of a first attempt.
    pub first_open: &'static str,
    /// What stands after the task in the message of a first attempt.
    pub first_close: &'static str,
    /// What stands before the task in the message of a retry.
    pub task: &'static str,
    /// What stands before the command that was run.
    pub command: &'static str,
    /// What stands before what the command printed.
    pub output: &'static str,
    /// What stands before whether it succeeded.
    pub success: &'static str,
    /// What stands before the number of the attempt.
    pub attempt: &'static str,
    /// What closes the message of a retry.
    pub close: &'static str,
}

/// The pieces of the user messages in English.
pub open spec fn user_phrases_en() -> UserPhrases {
    UserPhrases {
        first_open: "Now, the user's request is: ",
        first_close: "\nPlease generate the shell command that fulfils this request.",
        task: "The user's request is: ",
        command: "\nThe command run last was: ",
        output: "\nIts output was: ",
        success: "\nDid it succeed: ",
        attempt: "\nThis was attempt number ",
        close: ".\nBased on the above, analyze the result and decide whether the expected goal was achieved. If it was not, analyze why and generate an improved command.",
    }
}

/// The pieces of the user messages in Chinese.
pub open spec fn user_phrases_zh() -> UserPhrases {
    UserPhrases {
        first_open: "现在，用户的问题为：",
        first_close: "，请你根据用户的问题生成对应的shell命令来实现用户的需求。",
        task: "用户的问题为：",
        command: "\n上一次执行的命令是：",
        output: "\n执行结果是：",
        success: "\n执行是否成功：",
        attempt: "\n这是第",
        close: "次尝试。\n请根据上述信息分析执行结果，判断是否达到预期目标，如果没有达到目标，分析原因并生成改进的命令。",
    }
}

/// The pieces of the user messages for a language code.
pub open spec fn user_phrases(language: Seq<char>) -> UserPhrases {
    if is_english(language) {
        user_phrases_en()
    } else {
        user_phrases_zh()
    }
}

/// The user message of a first attempt, in the language asked for: the task
/// between two fixed pieces.
pub open spec fn first_user_text(language: Seq<char>, task: Seq<char>) -> Seq<char> {
    user_phrases(language).first_open@ + task + user_phrases(language).first_close@
}

/// The decimal digit for a value below ten.
pub open spec fn digit(d: nat) -> Seq<char> {
    if d == 0 {
        "0"@
    } else if d == 1 {
        "1"@
    } else if d == 2 {
        "2"@
    } else if d == 3 {
        "3"@
    } else if d == 4 {
        "4"@
    } else if d == 5 {
        "5"@
    } else if d == 6 {
        "6"@
    } else if d == 7 {
        "7"@
    } else if d == 8 {
        "8"@
    } else {
        "9"@
    }
}

/// A number in decimal, without leading zeros.
pub open spec fn decimal(n: nat) -> Seq<char>
    decreases n,
{
    if n < 10 {
        digit(n)
    } else {
        decimal(n / 10) + digit(n % 10)
    }
}

/// A truth value as it is written in a prompt.
pub open spec fn truth(b: bool) -> Seq<char> {
    if b {
        "true"@
    } else {
        "false"@
    }
}

/// The user message of a retry, in the language asked for: the task, then the
/// command that was run, what it printed, whether it succeeded and which
/// attempt it was.
pub open spec fn retry_user_text(language: Seq<char>, task: Seq<char>, previous: HistoryView) -> Seq<
    char,
> {
    let p = user_phrases(language);
    p.task@ + task + p.command@ + previous.command + p.output@ + previous.output + p.success@
        + truth(previous.success) + p.attempt@ + decimal(previous.attempt) + p.close@
}

/// The user message: that of a first attempt where nothing came before, that
/// of a retry otherwise; in English for the code `en`, in Chinese for every
/// other.
pub open spec fn user_text(language: Seq<char>, task: Seq<char>, previous: Option<HistoryView>) -> Seq<
    char,
> {
    match previous {
        Some(h) => retry_user_text(language, task, h),
        None => first_user_text(language, task),
    }
}

/// The name of an operating-system family.
pub fn os_name(os: OsFamily) -> (label: &'static str)
    ensures
        label@ == os_label(os),
{
    match os {
        OsFamily::MacOs => "macOS",
        OsFamily::Linux => "Linux",
        OsFamily::Windows => "Windows",
        OsFamily::Other => "Unknown OS",
    }
}

fn append_or_unknown(out: &mut String, value: &Option<String>)
    ensures
        final(out)@ == old(out)@ + or_unknown(*value),
{
    match value {
        Some(text) => out.append(text.as_str()),
        None => out.append("Unknown"),
    }
}

/// Writes the report on the host.
pub fn get_system_info(env: &Environment) -> (info: String)
    ensures
        info@ == system_info(*env),
{
    let mut out = String::from_str("当前系统环境信息：\n- 操作系统: ");
    out.append(os_name(env.os));
    out.append("\n- Shell类型: ");
    append_or_unknown(&mut out, &env.shell);
    out.append("\n- 终端类型: ");
    append_or_unknown(&mut out, &env.term);
    out.append("\n- 当前用户: ");
    append_or_unknown(&mut out, &env.user);
    out.append("\n- 当前目录: ");
    append_or_unknown(&mut out, &env.pwd);
    out.append("\n");
    out
}

/// Builds the system text for a language code and a host.
pub fn build_system_prompt(language: &str, env: &Environment) -> (prompt: String)
    ensures
        prompt@ == system_text(language@, *env),
{
    let mut out = String::from_str(get_prompt(language));
    out.append("\n");
    let info = get_system_info(env);
    out.append(info.as_str());
    out
}

fn digit_text(d: u32) -> (text: &'static str)
    requires
        d < 10,
    ensures
        text@ == digit(d as nat),
{
    if d == 0 {
        "0"
    } else if d == 1 {
        "1"
    } else if d == 2 {
        "2"
    } else if d == 3 {
        "3"
    } else if d == 4 {
        "4"
    } else if d == 5 {
        "5"
    } else if d == 6 {
        "6"
    } else if d == 7 {
        "7"
    } else if d == 8 {
        "8"
    } else {
        "9"
    }
}

/// Writes a number in decimal.
pub fn decimal_text(n: u32) -> (text: String)
    ensures
        text@ == decimal(n as nat),
    decreases n,
{
    if n < 10 {
        String::from_str(digit_text(n))
    } else {
        let mut out = decimal_text(n / 10);
        out.append(digit_text(n % 10));
        out
    }
}

/// The pieces of the user messages in the language asked for.
pub fn get_user_phrases(language: &str) -> (phrases: UserPhrases)
    ensures
        phrases == user_phrases(language@),
{
    if same_text(language, "en") {
        UserPhrases {
            first_open: "Now, the user's request is: ",
            first_close: "\nPlease generate the shell command that fulfils this request.",
            task: "The user's request is: ",
            command: "\nThe command run last was: ",
            output: "\nIts output was: ",
            success: "\nDid it succeed: ",
            attempt: "\nThis was attempt number ",
            close: ".\nBased on the above, analyze the result and decide whether the expected goal was achieved. If it was not, analyze why and generate an improved command.",
        }
    } else {
        UserPhrases {
            first_open: "现在，用户的问题为：",
            first_close: "，请你根据用户的问题生成对应的shell命令来实现用户的需求。",
            task: "用户的问题为：",
            command: "\n上一次执行的命令是：",
            output: "\n执行结果是：",
            success: "\n执行是否成功：",
            attempt: "\n这是第",
            close: "次尝试。\n请根据上述信息分析执行结果，判断是否达到预期目标，如果没有达到目标，分析原因并生成改进的命令。",
        }
    }
}

/// Builds the user message in the language asked for. A first attempt is told
/// the task alone; a retry is told the task and the outcome of the attempt
/// before it.
pub fn build_user_prompt(language: &str, task: &str, previous: Option<&ExecutionHistory>) -> (prompt:
    String)
    ensures
        prompt@ == user_text(
            language@,
            task@,
            match previous {
                Some(h) => Some(h@),
                None => None,
            },
        ),
{
    let p = get_user_phrases(language);
    match previous {
        Some(h) => {
            let mut out = String::from_str(p.task);
            out.append(task);
            out.append(p.command);
            out.append(h.command.as_str());
            out.append(p.output);
            out.append(h.output.as_str());
            out.append(p.success);
            if h.success {
                out.append("true");
            } else {
                out.append("false");
            }
            out.append(p.attempt);
            let number = decimal_text(h.attempt);
            out.append(number.as_str());
            out.append(p.close);
            out
        },
        None => {
            let mut out = String::from_str(p.first_open);
            out.append(task);
            out.append(p.first_close);
            out
        },
    }
}

/// Builds both texts of one call of the backend, in the language asked for:
/// the system text, then the user message.
pub fn build_prompts(
    language: &str,
    task: &str,
    previous: Option<&ExecutionHistory>,
    env: &Environment,
) -> (prompts: (String, String))
    ensures
        prompts.0@ == system_text(language@, *env),
        prompts.1@ == user_text(
            language@,
            task@,
            match previous {
                Some(h) => Some(h@),
                None => None,
            },
        ),
{
    (build_system_prompt(language, env), build_user_prompt(language, task, previous))
}

/// One text stands in a longer one that was put together around it.
pub proof fn lemma_middle_is_contained(before: Seq<char>, middle: Seq<char>, after: Seq<char>)
    ensures
        contains_text(before + middle + after, middle),
{
    let whole = before + middle + after;
    let at = before.len() as int;
    assert(whole.subrange(at, at + middle.len()) =~= middle);
    assert(occurs_at(whole, middle, at));
}

/// In every language the user message of a retry holds the task, the command
/// that was run and what it printed, each letter for letter.
pub proof fn lemma_retry_text_holds_outcome(
    language: Seq<char>,
    task: Seq<char>,
    previous: HistoryView,
)
    ensures
        contains_text(user_text(language, task, Some(previous)), task),
        contains_text(user_text(language, task, Some(previous)), previous.command),
        contains_text(user_text(language, task, Some(previous)), previous.output),
{
    let p = user_phrases(language);
    let a = p.task@;
    let b = p.command@;
    let c = p.output@;
    let d = p.success@ + truth(previous.success) + p.attempt@ + decimal(previous.attempt)
        + p.close@;
    let whole = user_text(language, task, Some(previous));
    assert(whole =~= a + task + (b + previous.command + c + previous.output + d));
    lemma_middle_is_contained(a, task, b + previous.command + c + previous.output + d);
    assert(whole =~= (a + task + b) + previous.command + (c + previous.output + d));
    lemma_middle_is_contained(a + task + b, previous.command, c + previous.output + d);
    assert(whole =~= (a + task + b + previous.command + c) + previous.output + d);
    lemma_middle_is_contained(a + task + b + previous.command + c, previous.output, d);
}

/// In every language the user message of a first attempt is made of the task
/// and two fixed pieces: whatever came before has no part in it.
pub proof fn lemma_first_text_is_of_task_alone(language: Seq<char>, task: Seq<char>)
    ensures
        user_text(language, task, None) == first_user_text(language, task),
        contains_text(user_text(language, task, None), task),
{
    lemma_middle_is_contained(
        user_phrases(language).first_open@,
        task,
        user_phrases(language).first_close@,
    );
}

/// The user message follows the language: the English pieces for the code
/// `en`, the Chinese ones for every other code.
pub proof fn lemma_user_text_follows_language(language: Seq<char>, task: Seq<char>)
    ensures
        language == "en"@ ==> first_user_text(language, task) == user_phrases_en().first_open@
            + task + user_phrases_en().first_close@,
        language != "en"@ ==> first_user_text(language, task) == user_phrases_zh().first_open@
            + task + user_phrases_zh().first_close@,
        user_phrases_en().first_open@ != user_phrases_zh().first_open@,
{
    reveal_strlit("Now, the user's request is: ");
    reveal_strlit("现在，用户的问题为：");
    assert(user_phrases_en().first_open@.len() != user_phrases_zh().first_open@.len());
}

} // verus!
