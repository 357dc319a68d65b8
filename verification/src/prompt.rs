//! The conversations that ask a backend to explain a patch and to word a
//! commit message.
//!
//! Each consists of a fixed instruction as the system turn and a user turn
//! that ends with the caller's text, which is handed on whole.

use vstd::prelude::*;
use vstd::string::*;
use crate::chat::{messages_view, ChatMessage, ChatMessageView, Role};

verus! {

/// The instruction that asks for a structured analysis of a patch.
pub const EXPLAIN_SYSTEM_PROMPT: &'static str =
"You are a senior software engineer skilled in parsing Git patches. Please analyze the following Git patch content and explain the changes in a clear, structured manner:

### Input Requirements:
    1. The user will provide a Git patch text (in `git diff` output format).  
    2. You must extract the following key information:  
    - Modified file paths  
    - Change type for each file (Added/Deleted/Modified/Renamed)  
    - Core logic of code changes (described in natural language)  
    - Pay special attention to code blocks marked by `@@` line range indicators  
    - If conflict markers (e.g., `<<<<<<<`) exist, highlight them separately  

 ### Output Specification:
    Reply using the following Markdown format:  
    ````markdown  
    ## Analysis Report  
    **Overview**:  
    - Modified files: X  
    - Primary change type: [Feature addition/Bug fix/Refactoring/Configuration adjustment/etc.]  

### File Analysis:  
    1. **File path**: `src/example.py`  
    - **Change type**: Modified  
    - **Line range**: @@ -15,6 +15,8 @@ (Original: 6 lines from line 15 → New: 8 lines from line 15)  
    - **Change description**:  
        - Added parameter validation logic in `calculate()` function  
        - Fixed division-by-zero error (new lines 18-19)  
        - Removed deprecated log output (original line 22)  

    2. **File path**: `config/env.yaml`  
    - **Change type**: Added  
    - **Key changes**: Added database connection pool parameters  

    [Continue for other files in this format...]  

### Notes:  
    - Use `>` to quote critical code snippets (≤ 3 lines)  
    - Use ⚠️ warning when conflict markers are detected  
    - Do not speculate about context not present in the patch";

/// What the user turn says before the patch.
pub const EXPLAIN_LEAD_IN: &'static str = "Hello, please explain the code modification below. \n";

/// The instruction that lays down the form of a commit message.
pub const COMMIT_SYSTEM_PROMPT: &'static str =
"You are an expert in conventional commits. Generate a commit message strictly following this format:

<type>(<scope>): <subject>
<body>
<footer>

Rules:
1. **Type** (mandatory): Choose exactly one from:
   - feat: new feature
   - fix: bug fix
   - docs: documentation changes
   - style: formatting changes (whitespace, formatting, etc.)
   - refactor: code restructuring (non-breaking changes)
   - test: test additions/modifications
   - chore: build/auxiliary tool updates

2. **Scope** (optional): Module/component affected (e.g., 'login', 'database'). Omit if irrelevant.

3. **Subject** (mandatory):
   - Imperative tense ('Add' not 'Added')
   - ≤50 characters
   - No ending punctuation
   - Summarize key change

4. **Body** (optional):
   - Detailed explanation s(72-character wrap)
   - Answer 'why?' not 'what?'
   - Use bullet points if needed

5. **Footer** (optional):
   - Reference issues (e.g., 'Closes #123')
   - BREAKING CHANGE notices if applicable

Analyze this git diff and generate the commit message accordingly. 
Output ONLY the commit message with no additional text.";

/// What the user turn says before the description of the patch.
pub const COMMIT_LEAD_IN: &'static str =
"Please help me to generate commit message. 
Please populate the content within the <body> section according to the file granularity.
The following is Git patch's description:\n";

/// A system turn that says `instruction`, then a user turn that says `lead_in`
/// and then `text`.
pub open spec fn two_turns(instruction: Seq<char>, lead_in: Seq<char>, text: Seq<char>) -> Seq<
    ChatMessageView,
> {
    seq![
        ChatMessageView { role: Role::System, content: instruction },
        ChatMessageView { role: Role::User, content: lead_in + text },
    ]
}

/// The conversation that asks for an explanation of `diff`.
pub open spec fn explain_prompt(diff: Seq<char>) -> Seq<ChatMessageView> {
    two_turns(EXPLAIN_SYSTEM_PROMPT@, EXPLAIN_LEAD_IN@, diff)
}

/// The conversation that asks for a commit message for the change that
/// `explanation` describes.
pub open spec fn commit_message_prompt(explanation: Seq<char>) -> Seq<ChatMessageView> {
    two_turns(COMMIT_SYSTEM_PROMPT@, COMMIT_LEAD_IN@, explanation)
}

/// Builds the two turns of a conversation.
fn build_turns(instruction: &str, lead_in: &str, text: &str) -> (msgs: Vec<ChatMessage>)
    ensures
        msgs@.len() == 2,
        messages_view(msgs@) == two_turns(instruction@, lead_in@, text@),
{
    let mut content = lead_in.to_owned();
    content.append(text);
    let mut msgs: Vec<ChatMessage> = Vec::new();
    msgs.push(ChatMessage::new(Role::System, instruction.to_owned()));
    msgs.push(ChatMessage::new(Role::User, content));
    assert(messages_view(msgs@) =~= two_turns(instruction@, lead_in@, text@));
    msgs
}

/// The conversation that asks a backend to explain a patch.
pub fn prompt_diff(diff_content: String) -> (msgs: Vec<ChatMessage>)
    ensures
        msgs@.len() == 2,
        messages_view(msgs@) == explain_prompt(diff_content@),
{
    build_turns(EXPLAIN_SYSTEM_PROMPT, EXPLAIN_LEAD_IN, diff_content.as_str())
}

/// The conversation that asks a backend for a commit message, given the
/// explanation of the change.
pub fn prompt_create_commit_msg(commit_content: String) -> (msgs: Vec<ChatMessage>)
    ensures
        msgs@.len() == 2,
        messages_view(msgs@) == commit_message_prompt(commit_content@),
{
    build_turns(COMMIT_SYSTEM_PROMPT, COMMIT_LEAD_IN, commit_content.as_str())
}

/// Both conversations have two turns, the system turn first, and the user
/// turn ends with the text that was handed in, whole.
pub proof fn lemma_prompt_shape(instruction: Seq<char>, lead_in: Seq<char>, text: Seq<char>)
    ensures
        two_turns(instruction, lead_in, text).len() == 2,
        two_turns(instruction, lead_in, text)[0].role == Role::System,
        two_turns(instruction, lead_in, text)[0].content == instruction,
        two_turns(instruction, lead_in, text)[1].role == Role::User,
        two_turns(instruction, lead_in, text)[1].content.len() == lead_in.len() + text.len(),
        two_turns(instruction, lead_in, text)[1].content.subrange(
            lead_in.len() as int,
            (lead_in.len() + text.len()) as int,
        ) == text,
{
    let c = two_turns(instruction, lead_in, text)[1].content;
    assert(c.subrange(lead_in.len() as int, (lead_in.len() + text.len()) as int) =~= text);
}

} // verus!
