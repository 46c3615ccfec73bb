//! Stand-in artifacts for when the runtime gives no answer: four fixed
//! layouts, chosen by keyword, each a short introduction, a fenced web page
//! and closing notes.

use crate::text::{contains, lowercase, occurs_at, occurs_in, to_lowercase};
use vstd::prelude::*;

verus! {

/// Separates the introduction from the page and opens the fenced block.
pub const FENCE_OPEN: &'static str = "\n\n```html\n";

/// Closes the fenced block and separates the page from the notes.
pub const FENCE_CLOSE: &'static str = "\n```\n\n";

pub const TODO_INTRO: &'static str = "Here's a beautiful Todo List App:";

pub const TODO_PAGE: &'static str = r#"<!DOCTYPE html>
<html lang="en">
<head>
    <meta charset="UTF-8">
    <meta name="viewport" content="width=device-width, initial-scale=1.0">
    <title>Todo List</title>
    <script src="https://cdn.tailwindcss.com"></script>
</head>
<body class="min-h-screen bg-gradient-to-br from-purple-900 via-black to-pink-900 p-4">
    <div class="max-w-md mx-auto mt-8">
        <h1 class="text-3xl font-bold text-white text-center mb-8">📝 Todo List</h1>
        
        <div class="bg-white/10 backdrop-blur-lg rounded-2xl p-6 shadow-2xl">
            <div class="flex gap-2 mb-4">
                <input type="text" id="todoInput" placeholder="Add a new todo..." 
                       class="flex-1 bg-white/20 text-white placeholder-white/60 px-4 py-2 rounded-lg border border-white/20 focus:outline-none focus:border-pink-500">
                <button onclick="addTodo()" class="bg-gradient-to-r from-pink-500 to-purple-500 px-4 py-2 rounded-lg text-white font-semibold hover:scale-105 transition-transform">
                    Add
                </button>
            </div>
            
            <ul id="todoList" class="space-y-2">
                <!-- Todos will be added here -->
            </ul>
            
            <div class="mt-4 text-center text-white/60 text-sm">
                <span id="todoCount">0 todos</span>
            </div>
        </div>
    </div>

    <script>
        let todos = [];
        
        function addTodo() {
            const input = document.getElementById('todoInput');
            const text = input.value.trim();
            
            if (text) {
                todos.push({ id: Date.now(), text: text, completed: false });
                input.value = '';
                renderTodos();
            }
        }
        
        function toggleTodo(id) {
            const todo = todos.find(t => t.id === id);
            if (todo) {
                todo.completed = !todo.completed;
                renderTodos();
            }
        }
        
        function deleteTodo(id) {
            todos = todos.filter(t => t.id !== id);
            renderTodos();
        }
        
        function renderTodos() {
            const list = document.getElementById('todoList');
            const count = document.getElementById('todoCount');
            
            list.innerHTML = todos.map(todo => `
                <li class="flex items-center gap-3 p-3 bg-white/5 rounded-lg">
                    <input type="checkbox" ${todo.completed ? 'checked' : ''} 
                           onchange="toggleTodo(${todo.id})" class="w-4 h-4">
                    <span class="flex-1 ${todo.completed ? 'line-through text-white/60' : 'text-white'}">${todo.text}</span>
                    <button onclick="deleteTodo(${todo.id})" class="text-red-400 hover:text-red-300">✕</button>
                </li>
            `).join('');
            
            count.textContent = `${todos.length} todo${todos.length !== 1 ? 's' : ''}`;
        }
        
        // Allow Enter key to add todo
        document.getElementById('todoInput').addEventListener('keypress', function(e) {
            if (e.key === 'Enter') {
                addTodo();
            }
        });
    </script>
</body>
</html>"#;

pub const TODO_NOTES: &'static str = r#"This todo app features:
- Add new todos with Enter key or button
- Mark todos as complete with checkboxes
- Delete todos with the ✕ button
- Beautiful glassmorphism design
- Real-time todo counter
- Smooth animations and hover effects"#;

pub const CALCULATOR_INTRO: &'static str = "Here's a beautiful Calculator:";

pub const CALCULATOR_PAGE: &'static str = r#"<!DOCTYPE html>
<html lang="en">
<head>
    <meta charset="UTF-8">
    <meta name="viewport" content="width=device-width, initial-scale=1.0">
    <title>Calculator</title>
    <script src="https://cdn.tailwindcss.com"></script>
</head>
<body class="min-h-screen bg-gradient-to-br from-purple-900 via-black to-pink-900 flex items-center justify-center p-4">
    <div class="bg-white/10 backdrop-blur-lg rounded-3xl p-6 shadow-2xl max-w-sm w-full">
        <div class="text-center mb-6">
            <h1 class="text-2xl font-bold text-white mb-2">🧮 Calculator</h1>
        </div>
        
        <div class="bg-black/30 rounded-2xl p-4 mb-4">
            <input type="text" id="display" value="0" readonly 
                   class="w-full text-right text-3xl font-bold text-white bg-transparent border-none outline-none">
        </div>
        
        <div class="grid grid-cols-4 gap-3">
            <button onclick="clearAll()" class="col-span-2 bg-red-500 hover:bg-red-600 text-white p-4 rounded-xl font-semibold transition-all hover:scale-105">Clear</button>
            <button onclick="deleteLast()" class="bg-orange-500 hover:bg-orange-600 text-white p-4 rounded-xl font-semibold transition-all hover:scale-105">⌫</button>
            <button onclick="appendToDisplay('/')" class="bg-blue-500 hover:bg-blue-600 text-white p-4 rounded-xl font-semibold transition-all hover:scale-105">÷</button>
            
            <button onclick="appendToDisplay('7')" class="bg-gray-600 hover:bg-gray-700 text-white p-4 rounded-xl font-semibold transition-all hover:scale-105">7</button>
            <button onclick="appendToDisplay('8')" class="bg-gray-600 hover:bg-gray-700 text-white p-4 rounded-xl font-semibold transition-all hover:scale-105">8</button>
            <button onclick="appendToDisplay('9')" class="bg-gray-600 hover:bg-gray-700 text-white p-4 rounded-xl font-semibold transition-all hover:scale-105">9</button>
            <button onclick="appendToDisplay('*')" class="bg-blue-500 hover:bg-blue-600 text-white p-4 rounded-xl font-semibold transition-all hover:scale-105">×</button>
            
            <button onclick="appendToDisplay('4')" class="bg-gray-600 hover:bg-gray-700 text-white p-4 rounded-xl font-semibold transition-all hover:scale-105">4</button>
            <button onclick="appendToDisplay('5')" class="bg-gray-600 hover:bg-gray-700 text-white p-4 rounded-xl font-semibold transition-all hover:scale-105">5</button>
            <button onclick="appendToDisplay('6')" class="bg-gray-600 hover:bg-gray-700 text-white p-4 rounded-xl font-semibold transition-all hover:scale-105">6</button>
            <button onclick="appendToDisplay('-')" class="bg-blue-500 hover:bg-blue-600 text-white p-4 rounded-xl font-semibold transition-all hover:scale-105">-</button>
            
            <button onclick="appendToDisplay('1')" class="bg-gray-600 hover:bg-gray-700 text-white p-4 rounded-xl font-semibold transition-all hover:scale-105">1</button>
            <button onclick="appendToDisplay('2')" class="bg-gray-600 hover:bg-gray-700 text-white p-4 rounded-xl font-semibold transition-all hover:scale-105">2</button>
            <button onclick="appendToDisplay('3')" class="bg-gray-600 hover:bg-gray-700 text-white p-4 rounded-xl font-semibold transition-all hover:scale-105">3</button>
            <button onclick="appendToDisplay('+')" class="bg-blue-500 hover:bg-blue-600 text-white p-4 rounded-xl font-semibold transition-all hover:scale-105">+</button>
            
            <button onclick="appendToDisplay('0')" class="col-span-2 bg-gray-600 hover:bg-gray-700 text-white p-4 rounded-xl font-semibold transition-all hover:scale-105">0</button>
            <button onclick="appendToDisplay('.')" class="bg-gray-600 hover:bg-gray-700 text-white p-4 rounded-xl font-semibold transition-all hover:scale-105">.</button>
            <button onclick="calculate()" class="bg-green-500 hover:bg-green-600 text-white p-4 rounded-xl font-semibold transition-all hover:scale-105">=</button>
        </div>
    </div>

    <script>
        let currentInput = '0';
        let operator = null;
        let previousInput = null;
        
        function updateDisplay() {
            document.getElementById('display').value = currentInput;
        }
        
        function appendToDisplay(value) {
            if (currentInput === '0' && value !== '.') {
                currentInput = value;
            } else {
                currentInput += value;
            }
            updateDisplay();
        }
        
        function clearAll() {
            currentInput = '0';
            operator = null;
            previousInput = null;
            updateDisplay();
        }
        
        function deleteLast() {
            if (currentInput.length > 1) {
                currentInput = currentInput.slice(0, -1);
            } else {
                currentInput = '0';
            }
            updateDisplay();
        }
        
        function calculate() {
            if (operator && previousInput !== null) {
                const prev = parseFloat(previousInput);
                const current = parseFloat(currentInput);
                let result;
                
                switch (operator) {
                    case '+': result = prev + current; break;
                    case '-': result = prev - current; break;
                    case '*': result = prev * current; break;
                    case '/': result = prev / current; break;
                    default: return;
                }
                
                currentInput = result.toString();
                operator = null;
                previousInput = null;
                updateDisplay();
            }
        }
        
        // Handle operator clicks
        document.querySelectorAll('button').forEach(button => {
            button.addEventListener('click', function() {
                const value = this.textContent;
                if (['+', '-', '*', '/'].includes(value)) {
                    if (operator && previousInput !== null) {
                        calculate();
                    }
                    operator = value;
                    previousInput = currentInput;
                    currentInput = '0';
                }
            });
        });
    </script>
</body>
</html>"#;

pub const CALCULATOR_NOTES: &'static str = r#"This calculator features:
- Full arithmetic operations (+, -, ×, ÷)
- Clear and backspace functions
- Beautiful glassmorphism design
- Smooth button animations
- Keyboard-friendly interface"#;

pub const GENERIC_INTRO: &'static str = "Here's a beautiful Custom App:";

/// The generic page up to the place where the request is quoted.
pub const GENERIC_PAGE_HEAD: &'static str = r#"<!DOCTYPE html>
<html lang="en">
<head>
    <meta charset="UTF-8">
    <meta name="viewport" content="width=device-width, initial-scale=1.0">
    <title>Custom App</title>
    <script src="https://cdn.tailwindcss.com"></script>
</head>
<body class="min-h-screen bg-gradient-to-br from-purple-900 via-black to-pink-900 flex items-center justify-center">
    <div class="text-center text-white">
        <h1 class="text-4xl font-bold mb-4">Custom App</h1>
        <p class="text-xl">Created based on your request: ""#;

/// The generic page after the quoted request.
pub const GENERIC_PAGE_TAIL: &'static str = r#""</p>
        <div class="mt-6">
            <button class="bg-gradient-to-r from-pink-500 to-purple-500 px-6 py-3 rounded-lg hover:scale-105 transition-transform">
                Click me!
            </button>
        </div>
    </div>
</body>
</html>"#;

pub const GENERIC_NOTES: &'static str = "This app features beautiful gradients and interactive elements!";

pub const FIXED_INTRO: &'static str = "Here's a fixed version:";

pub const FIXED_PAGE: &'static str = r#"<!DOCTYPE html>
<html lang="en">
<head>
    <meta charset="UTF-8">
    <meta name="viewport" content="width=device-width, initial-scale=1.0">
    <title>Fixed App</title>
    <script src="https://cdn.tailwindcss.com"></script>
</head>
<body class="bg-gradient-to-br from-blue-500 to-purple-600 min-h-screen flex items-center justify-center">
    <div class="bg-white/10 backdrop-blur-lg rounded-2xl p-8 shadow-2xl max-w-md w-full mx-4">
        <h1 class="text-3xl font-bold text-white text-center mb-6">✨ Fixed!</h1>
        <p class="text-white/80 text-center">This version should work perfectly!</p>
    </div>
</body>
</html>"#;

pub const FIXED_NOTES: &'static str = r#"Fixed issues:
- Added proper DOCTYPE and HTML structure
- Simplified the code to avoid errors
- Used reliable patterns
- Added error handling"#;

/// The four layouts a stand-in artifact can have.
#[derive(Clone, Copy, Debug, PartialEq, Eq, Structural)]
pub enum Template {
    /// A task-list application.
    Todo,
    /// An arithmetic keypad.
    Calculator,
    /// A page that quotes the request.
    Generic,
    /// The page offered when an earlier artifact is being corrected.
    Fixed,
}

/// An artifact: introduction, fenced page, notes.
pub open spec fn fenced(intro: Seq<char>, page: Seq<char>, notes: Seq<char>) -> Seq<char> {
    intro + FENCE_OPEN@ + page + FENCE_CLOSE@ + notes
}

/// The page of the generic layout for a request.
pub open spec fn generic_page(request: Seq<char>) -> Seq<char> {
    GENERIC_PAGE_HEAD@ + request + GENERIC_PAGE_TAIL@
}

/// Which layout answers a request. A correction always gets the fixed page;
/// otherwise the lowercased request is searched for "todo", then for
/// "calculator".
pub open spec fn route(lowered: Seq<char>, is_fix_attempt: bool) -> Template {
    if is_fix_attempt {
        Template::Fixed
    } else if occurs_in(lowered, "todo"@) {
        Template::Todo
    } else if occurs_in(lowered, "calculator"@) {
        Template::Calculator
    } else {
        Template::Generic
    }
}

/// The artifact of a layout. Only the generic layout depends on the request.
pub open spec fn artifact_of(template: Template, request: Seq<char>) -> Seq<char> {
    match template {
        Template::Todo => fenced(TODO_INTRO@, TODO_PAGE@, TODO_NOTES@),
        Template::Calculator => fenced(CALCULATOR_INTRO@, CALCULATOR_PAGE@, CALCULATOR_NOTES@),
        Template::Generic => fenced(GENERIC_INTRO@, generic_page(request), GENERIC_NOTES@),
        Template::Fixed => fenced(FIXED_INTRO@, FIXED_PAGE@, FIXED_NOTES@),
    }
}

/// The stand-in artifact for a request, given its lowercase form.
pub open spec fn fallback_text(lowered: Seq<char>, request: Seq<char>, is_fix_attempt: bool) -> Seq<
    char,
> {
    artifact_of(route(lowered, is_fix_attempt), request)
}

/// Puts the three parts of an artifact together.
fn fence(intro: &str, page: &str, notes: &str) -> (artifact: String)
    ensures
        artifact@ == fenced(intro@, page@, notes@),
{
    let mut artifact = String::from_str(intro);
    artifact.append(FENCE_OPEN);
    artifact.append(page);
    artifact.append(FENCE_CLOSE);
    artifact.append(notes);
    artifact
}

impl Template {
    /// Chooses the layout from the lowercase form of the request.
    pub fn select(lowered: &str, is_fix_attempt: bool) -> (template: Template)
        ensures
            template == route(lowered@, is_fix_attempt),
    {
        if is_fix_attempt {
            Template::Fixed
        } else if contains(lowered, "todo") {
            Template::Todo
        } else if contains(lowered, "calculator") {
            Template::Calculator
        } else {
            Template::Generic
        }
    }

    /// Writes the artifact of this layout for `request`.
    pub fn render(&self, request: &str) -> (artifact: String)
        ensures
            artifact@ == artifact_of(*self, request@),
            artifact@.len() > 0,
    {
        proof {
            lemma_artifact_not_empty(*self, request@);
        }
        match self {
            Template::Todo => fence(TODO_INTRO, TODO_PAGE, TODO_NOTES),
            Template::Calculator => fence(CALCULATOR_INTRO, CALCULATOR_PAGE, CALCULATOR_NOTES),
            Template::Generic => {
                let mut page = String::from_str(GENERIC_PAGE_HEAD);
                page.append(request);
                page.append(GENERIC_PAGE_TAIL);
                fence(GENERIC_INTRO, page.as_str(), GENERIC_NOTES)
            },
            Template::Fixed => fence(FIXED_INTRO, FIXED_PAGE, FIXED_NOTES),
        }
    }
}

/// The stand-in artifact for `request`, whose lowercase form is `lowered`.
pub fn fallback_for(lowered: &str, request: &str, is_fix_attempt: bool) -> (artifact: String)
    ensures
        artifact@ == fallback_text(lowered@, request@, is_fix_attempt),
        artifact@.len() > 0,
{
    Template::select(lowered, is_fix_attempt).render(request)
}

/// The stand-in artifact for `request`: lowercases it and answers as
/// `fallback_for` does.
pub fn fallback(request: &str, is_fix_attempt: bool) -> (artifact: String)
    ensures
        artifact@ == fallback_text(lowercase(request@), request@, is_fix_attempt),
        artifact@.len() > 0,
{
    let lowered = to_lowercase(request);
    fallback_for(lowered.as_str(), request, is_fix_attempt)
}

/// No artifact is empty: each holds at least the fence.
pub proof fn lemma_artifact_not_empty(template: Template, request: Seq<char>)
    ensures
        artifact_of(template, request).len() > 0,
{
    reveal_strlit("\n\n```html\n");
}

/// The same request and flag give the same artifact, character for
/// character.
pub proof fn lemma_fallback_deterministic(
    first_request: Seq<char>,
    first_flag: bool,
    second_request: Seq<char>,
    second_flag: bool,
)
    requires
        first_request == second_request,
        first_flag == second_flag,
    ensures
        fallback_text(lowercase(first_request), first_request, first_flag) == fallback_text(
            lowercase(second_request),
            second_request,
            second_flag,
        ),
{
}

/// The generic artifact quotes the request verbatim: the request stands in
/// it, directly behind the head of the page.
pub proof fn lemma_generic_quotes_request(request: Seq<char>)
    ensures
        occurs_in(artifact_of(Template::Generic, request), request),
{
    let before = GENERIC_INTRO@ + FENCE_OPEN@ + GENERIC_PAGE_HEAD@;
    let artifact = artifact_of(Template::Generic, request);
    assert(artifact.subrange(before.len() as int, (before.len() + request.len()) as int) =~= request);
    assert(occurs_at(artifact, request, before.len() as int));
}

/// Routing of a first attempt by keyword, over the lowercase form of the
/// request: "todo" gives the task list; "calculator", where "todo" does not
/// occur, gives the keypad; a request with neither gives the generic page,
/// which quotes it.
pub proof fn lemma_keyword_routing(lowered: Seq<char>, request: Seq<char>)
    ensures
        occurs_in(lowered, "todo"@) ==> fallback_text(lowered, request, false) == artifact_of(
            Template::Todo,
            request,
        ),
        !occurs_in(lowered, "todo"@) && occurs_in(lowered, "calculator"@) ==> fallback_text(
            lowered,
            request,
            false,
        ) == artifact_of(Template::Calculator, request),
        !occurs_in(lowered, "todo"@) && !occurs_in(lowered, "calculator"@) ==> {
            &&& fallback_text(lowered, request, false) == artifact_of(Template::Generic, request)
            &&& occurs_in(fallback_text(lowered, request, false), request)
        },
{
    lemma_generic_quotes_request(request);
}

/// A correction is answered with the fixed page whatever the request
/// holds, and the fixed artifact is not the task-list artifact.
pub proof fn lemma_fix_attempt_gets_fixed_page(lowered: Seq<char>, request: Seq<char>)
    ensures
        fallback_text(lowered, request, true) == artifact_of(Template::Fixed, request),
        artifact_of(Template::Fixed, request) != artifact_of(Template::Todo, request),
{
    reveal_strlit("Here's a fixed version:");
    reveal_strlit("Here's a beautiful Todo List App:");
    let fixed = artifact_of(Template::Fixed, request);
    let todo = artifact_of(Template::Todo, request);
    assert(fixed[9] == 'f');
    assert(todo[9] == 'b');
}

} // verus!
