//! The instruction prompt handed to the runtime: a fixed system turn, the
//! user's turn, and the opening of the assistant's turn.

use crate::text::{decimal, decimal_text, occurs_at, occurs_in};
use vstd::prelude::*;

verus! {

/// The system turn, role markers included.
pub const VIBE_CODING_SYSTEM_PROMPT: &'static str = r#"<|im_start|>system
You are Vibe Cherry, an expert at creating beautiful, functional web applications in a single response.

CORE RULES:
1. Always output complete, self-contained HTML that includes CSS and JavaScript
2. Use modern, aesthetic design with smooth animations
3. Make it mobile-responsive by default
4. Include interactivity - buttons should do things, inputs should work
5. Use Tailwind-style utilities when possible (we'll inject Tailwind CDN)
6. Keep code clean, commented, and well-structured

OUTPUT FORMAT:
Always wrap your complete code in a single code block like this:

```html
<!DOCTYPE html>
<html lang="en">
<head>
    <meta charset="UTF-8">
    <meta name="viewport" content="width=device-width, initial-scale=1.0">
    <title>App Name</title>
    <script src="https://cdn.tailwindcss.com"></script>
</head>
<body>
    <!-- Your beautiful code here -->
</body>
</html>
```

VIBE GUIDELINES:
- Use gradients, shadows, and subtle animations
- Include micro-interactions (hover effects, transitions)
- Make it feel alive and polished
- Think: "What would make this delightful?"
- Default to dark mode with pops of color

EXAMPLES OF GOOD VIBES:
✓ Smooth fade-ins when elements appear
✓ Buttons that scale slightly on hover
✓ Cards with subtle shadow elevation
✓ Input fields with focus glow effects
✓ Satisfying click feedback

When the user asks for an app, think about the core functionality and create something they can immediately use and enjoy.
<|im_end|>"#;

/// Opens the user's turn.
pub const USER_TURN_OPEN: &'static str = "<|im_start|>user\n";

/// Closes the user's turn and opens the assistant's.
pub const USER_TURN_CLOSE: &'static str = "\n<|im_end|>\n<|im_start|>assistant\n";

/// Stands before the attempt number of a correction.
pub const FIX_DIRECTIVE_OPEN: &'static str = "FIX ATTEMPT #";

/// Stands between the attempt number of a correction and the request.
pub const FIX_DIRECTIVE_CLOSE: &'static str =
    "\nBe extra careful with syntax and completeness.\n\n";

/// What one generation call is asked: the request, the earlier turns of the
/// conversation, and, for a correction of an earlier artifact, the number of
/// the attempt. Earlier turns are carried along and take no part in the
/// prompt.
pub struct PromptContext {
    pub user_text: String,
    pub prior_turns: Vec<String>,
    pub fix_attempt: Option<u32>,
}

/// What a correction puts before the request; nothing for a first attempt.
pub open spec fn fix_directive(fix_attempt: Option<u32>) -> Seq<char> {
    match fix_attempt {
        Some(number) => FIX_DIRECTIVE_OPEN@ + decimal(number as nat) + FIX_DIRECTIVE_CLOSE@,
        None => Seq::<char>::empty(),
    }
}

/// The whole prompt: the request is taken verbatim, whatever it holds.
pub open spec fn prompt_text(user_text: Seq<char>, fix_attempt: Option<u32>) -> Seq<char> {
    VIBE_CODING_SYSTEM_PROMPT@ + USER_TURN_OPEN@ + fix_directive(fix_attempt) + user_text
        + USER_TURN_CLOSE@
}

/// The annotation that the pair of a flag and an attempt number stands for:
/// the number counts only where the flag is set.
pub open spec fn fix_annotation(is_fix_attempt: bool, attempt_number: u32) -> Option<u32> {
    if is_fix_attempt {
        Some(attempt_number)
    } else {
        None
    }
}

impl PromptContext {
    /// A first attempt at `user_text`, with the conversation so far.
    pub fn plain(user_text: String, prior_turns: Vec<String>) -> (context: PromptContext)
        ensures
            context.user_text == user_text,
            context.prior_turns == prior_turns,
            context.fix_attempt is None,
    {
        PromptContext { user_text, prior_turns, fix_attempt: None }
    }

    /// An attempt at `user_text` that is a correction exactly if
    /// `is_fix_attempt` is set; `attempt_number` is kept only then.
    pub fn healing(user_text: String, is_fix_attempt: bool, attempt_number: u32) -> (context:
        PromptContext)
        ensures
            context.user_text == user_text,
            context.prior_turns@.len() == 0,
            context.fix_attempt == fix_annotation(is_fix_attempt, attempt_number),
    {
        let fix_attempt = if is_fix_attempt {
            Some(attempt_number)
        } else {
            None
        };
        PromptContext { user_text, prior_turns: Vec::new(), fix_attempt }
    }

    /// Whether this attempt corrects an earlier artifact.
    pub fn is_fix_attempt(&self) -> (flag: bool)
        ensures
            flag == self.fix_attempt is Some,
    {
        self.fix_attempt.is_some()
    }

    /// Writes the prompt for this attempt.
    pub fn build_prompt(&self) -> (prompt: String)
        ensures
            prompt@ == prompt_text(self.user_text@, self.fix_attempt),
    {
        build_prompt(self.user_text.as_str(), self.fix_attempt)
    }
}

/// Writes the prompt for a request and its optional attempt number.
pub fn build_prompt(user_text: &str, fix_attempt: Option<u32>) -> (prompt: String)
    ensures
        prompt@ == prompt_text(user_text@, fix_attempt),
{
    let mut prompt = String::from_str(VIBE_CODING_SYSTEM_PROMPT);
    prompt.append(USER_TURN_OPEN);
    match fix_attempt {
        Some(number) => {
            let digits = decimal_text(number);
            prompt.append(FIX_DIRECTIVE_OPEN);
            prompt.append(digits.as_str());
            prompt.append(FIX_DIRECTIVE_CLOSE);
            assert(prompt@ =~= VIBE_CODING_SYSTEM_PROMPT@ + USER_TURN_OPEN@ + fix_directive(
                fix_attempt,
            ));
        },
        None => {
            assert(prompt@ =~= VIBE_CODING_SYSTEM_PROMPT@ + USER_TURN_OPEN@ + fix_directive(
                fix_attempt,
            ));
        },
    }
    prompt.append(user_text);
    prompt.append(USER_TURN_CLOSE);
    prompt
}

/// The prompt holds the request verbatim, between the directive and the
/// close of the user's turn.
pub proof fn lemma_prompt_quotes_request(user_text: Seq<char>, fix_attempt: Option<u32>)
    ensures
        occurs_in(prompt_text(user_text, fix_attempt), user_text),
{
    let before = VIBE_CODING_SYSTEM_PROMPT@ + USER_TURN_OPEN@ + fix_directive(fix_attempt);
    let prompt = prompt_text(user_text, fix_attempt);
    assert(prompt.subrange(before.len() as int, (before.len() + user_text.len()) as int)
        =~= user_text);
    assert(occurs_at(prompt, user_text, before.len() as int));
}

} // verus!
