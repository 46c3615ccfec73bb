use vibe_cherry::fallback::{fallback, fallback_for, Template};

fn todo_artifact() -> &'static str {
    r#"Here's a beautiful Todo List App:

```html
<!DOCTYPE html>
<html lang="en">
<head>
    <meta charset="UTF-8">
    <meta name="viewport" content="width=device-width, initial-scale=1.0">
    <title>Todo List</title>
    <script src="https://cdn.tailwindcss.com"></script>
</head>
<body class="min-h-screen bg-gradient-to-br from-purple-900 via-black to-pink-900 p-4">
    <div class="max-w-md mx-auto mt-8">
        <h1 class="text-3xl font-bold text-white text-center mb-8">📝 Todo List</h1>
        
        <div class="bg-white/10 backdrop-blur-lg rounded-2xl p-6 shadow-2xl">
            <div class="flex gap-2 mb-4">
                <input type="text" id="todoInput" placeholder="Add a new todo..." 
                       class="flex-1 bg-white/20 text-white placeholder-white/60 px-4 py-2 rounded-lg border border-white/20 focus:outline-none focus:border-pink-500">
                <button onclick="addTodo()" class="bg-gradient-to-r from-pink-500 to-purple-500 px-4 py-2 rounded-lg text-white font-semibold hover:scale-105 transition-transform">
                    Add
                </button>
            </div>
            
            <ul id="todoList" class="space-y-2">
                <!-- Todos will be added here -->
            </ul>
            
            <div class="mt-4 text-center text-white/60 text-sm">
                <span id="todoCount">0 todos</span>
            </div>
        </div>
    </div>

    <script>
        let todos = [];
        
        function addTodo() {
            const input = document.getElementById('todoInput');
            const text = input.value.trim();
            
            if (text) {
                todos.push({ id: Date.now(), text: text, completed: false });
                input.value = '';
                renderTodos();
            }
        }
        
        function toggleTodo(id) {
            const todo = todos.find(t => t.id === id);
            if (todo) {
                todo.completed = !todo.completed;
                renderTodos();
            }
        }
        
        function deleteTodo(id) {
            todos = todos.filter(t => t.id !== id);
            renderTodos();
        }
        
        function renderTodos() {
            const list = document.getElementById('todoList');
            const count = document.getElementById('todoCount');
            
            list.innerHTML = todos.map(todo => `
                <li class="flex items-center gap-3 p-3 bg-white/5 rounded-lg">
                    <input type="checkbox" ${todo.completed ? 'checked' : ''} 
                           onchange="toggleTodo(${todo.id})" class="w-4 h-4">
                    <span class="flex-1 ${todo.completed ? 'line-through text-white/60' : 'text-white'}">${todo.text}</span>
                    <button onclick="deleteTodo(${todo.id})" class="text-red-400 hover:text-red-300">✕</button>
                </li>
            `).join('');
            
            count.textContent = `${todos.length} todo${todos.length !== 1 ? 's' : ''}`;
        }
        
        // Allow Enter key to add todo
        document.getElementById('todoInput').addEventListener('keypress', function(e) {
            if (e.key === 'Enter') {
                addTodo();
            }
        });
    </script>
</body>
</html>
```

This todo app features:
- Add new todos with Enter key or button
- Mark todos as complete with checkboxes
- Delete todos with the ✕ button
- Beautiful glassmorphism design
- Real-time todo counter
- Smooth animations and hover effects"#
}

fn calculator_artifact() -> &'static str {
    r#"Here's a beautiful Calculator:

```html
<!DOCTYPE html>
<html lang="en">
<head>
    <meta charset="UTF-8">
    <meta name="viewport" content="width=device-width, initial-scale=1.0">
    <title>Calculator</title>
    <script src="https://cdn.tailwindcss.com"></script>
</head>
<body class="min-h-screen bg-gradient-to-br from-purple-900 via-black to-pink-900 flex items-center justify-center p-4">
    <div class="bg-white/10 backdrop-blur-lg rounded-3xl p-6 shadow-2xl max-w-sm w-full">
        <div class="text-center mb-6">
            <h1 class="text-2xl font-bold text-white mb-2">🧮 Calculator</h1>
        </div>
        
        <div class="bg-black/30 rounded-2xl p-4 mb-4">
            <input type="text" id="display" value="0" readonly 
                   class="w-full text-right text-3xl font-bold text-white bg-transparent border-none outline-none">
        </div>
        
        <div class="grid grid-cols-4 gap-3">
            <button onclick="clearAll()" class="col-span-2 bg-red-500 hover:bg-red-600 text-white p-4 rounded-xl font-semibold transition-all hover:scale-105">Clear</button>
            <button onclick="deleteLast()" class="bg-orange-500 hover:bg-orange-600 text-white p-4 rounded-xl font-semibold transition-all hover:scale-105">⌫</button>
            <button onclick="appendToDisplay('/')" class="bg-blue-500 hover:bg-blue-600 text-white p-4 rounded-xl font-semibold transition-all hover:scale-105">÷</button>
            
            <button onclick="appendToDisplay('7')" class="bg-gray-600 hover:bg-gray-700 text-white p-4 rounded-xl font-semibold transition-all hover:scale-105">7</button>
            <button onclick="appendToDisplay('8')" class="bg-gray-600 hover:bg-gray-700 text-white p-4 rounded-xl font-semibold transition-all hover:scale-105">8</button>
            <button onclick="appendToDisplay('9')" class="bg-gray-600 hover:bg-gray-700 text-white p-4 rounded-xl font-semibold transition-all hover:scale-105">9</button>
            <button onclick="appendToDisplay('*')" class="bg-blue-500 hover:bg-blue-600 text-white p-4 rounded-xl font-semibold transition-all hover:scale-105">×</button>
            
            <button onclick="appendToDisplay('4')" class="bg-gray-600 hover:bg-gray-700 text-white p-4 rounded-xl font-semibold transition-all hover:scale-105">4</button>
            <button onclick="appendToDisplay('5')" class="bg-gray-600 hover:bg-gray-700 text-white p-4 rounded-xl font-semibold transition-all hover:scale-105">5</button>
            <button onclick="appendToDisplay('6')" class="bg-gray-600 hover:bg-gray-700 text-white p-4 rounded-xl font-semibold transition-all hover:scale-105">6</button>
            <button onclick="appendToDisplay('-')" class="bg-blue-500 hover:bg-blue-600 text-white p-4 rounded-xl font-semibold transition-all hover:scale-105">-</button>
            
            <button onclick="appendToDisplay('1')" class="bg-gray-600 hover:bg-gray-700 text-white p-4 rounded-xl font-semibold transition-all hover:scale-105">1</button>
            <button onclick="appendToDisplay('2')" class="bg-gray-600 hover:bg-gray-700 text-white p-4 rounded-xl font-semibold transition-all hover:scale-105">2</button>
            <button onclick="appendToDisplay('3')" class="bg-gray-600 hover:bg-gray-700 text-white p-4 rounded-xl font-semibold transition-all hover:scale-105">3</button>
            <button onclick="appendToDisplay('+')" class="bg-blue-500 hover:bg-blue-600 text-white p-4 rounded-xl font-semibold transition-all hover:scale-105">+</button>
            
            <button onclick="appendToDisplay('0')" class="col-span-2 bg-gray-600 hover:bg-gray-700 text-white p-4 rounded-xl font-semibold transition-all hover:scale-105">0</button>
            <button onclick="appendToDisplay('.')" class="bg-gray-600 hover:bg-gray-700 text-white p-4 rounded-xl font-semibold transition-all hover:scale-105">.</button>
            <button onclick="calculate()" class="bg-green-500 hover:bg-green-600 text-white p-4 rounded-xl font-semibold transition-all hover:scale-105">=</button>
        </div>
    </div>

    <script>
        let currentInput = '0';
        let operator = null;
        let previousInput = null;
        
        function updateDisplay() {
            document.getElementById('display').value = currentInput;
        }
        
        function appendToDisplay(value) {
            if (currentInput === '0' && value !== '.') {
                currentInput = value;
            } else {
                currentInput += value;
            }
            updateDisplay();
        }
        
        function clearAll() {
            currentInput = '0';
            operator = null;
            previousInput = null;
            updateDisplay();
        }
        
        function deleteLast() {
            if (currentInput.length > 1) {
                currentInput = currentInput.slice(0, -1);
            } else {
                currentInput = '0';
            }
            updateDisplay();
        }
        
        function calculate() {
            if (operator && previousInput !== null) {
                const prev = parseFloat(previousInput);
                const current = parseFloat(currentInput);
                let result;
                
                switch (operator) {
                    case '+': result = prev + current; break;
                    case '-': result = prev - current; break;
                    case '*': result = prev * current; break;
                    case '/': result = prev / current; break;
                    default: return;
                }
                
                currentInput = result.toString();
                operator = null;
                previousInput = null;
                updateDisplay();
            }
        }
        
        // Handle operator clicks
        document.querySelectorAll('button').forEach(button => {
            button.addEventListener('click', function() {
                const value = this.textContent;
                if (['+', '-', '*', '/'].includes(value)) {
                    if (operator && previousInput !== null) {
                        calculate();
                    }
                    operator = value;
                    previousInput = currentInput;
                    currentInput = '0';
                }
            });
        });
    </script>
</body>
</html>
```

This calculator features:
- Full arithmetic operations (+, -, ×, ÷)
- Clear and backspace functions
- Beautiful glassmorphism design
- Smooth button animations
- Keyboard-friendly interface"#
}

fn fixed_artifact() -> &'static str {
    r#"Here's a fixed version:

```html
<!DOCTYPE html>
<html lang="en">
<head>
    <meta charset="UTF-8">
    <meta name="viewport" content="width=device-width, initial-scale=1.0">
    <title>Fixed App</title>
    <script src="https://cdn.tailwindcss.com"></script>
</head>
<body class="bg-gradient-to-br from-blue-500 to-purple-600 min-h-screen flex items-center justify-center">
    <div class="bg-white/10 backdrop-blur-lg rounded-2xl p-8 shadow-2xl max-w-md w-full mx-4">
        <h1 class="text-3xl font-bold text-white text-center mb-6">✨ Fixed!</h1>
        <p class="text-white/80 text-center">This version should work perfectly!</p>
    </div>
</body>
</html>
```

Fixed issues:
- Added proper DOCTYPE and HTML structure
- Simplified the code to avoid errors
- Used reliable patterns
- Added error handling"#
}

fn generic_artifact(request: &str) -> String {
    let mut artifact = String::from(r#"Here's a beautiful Custom App:

```html
<!DOCTYPE html>
<html lang="en">
<head>
    <meta charset="UTF-8">
    <meta name="viewport" content="width=device-width, initial-scale=1.0">
    <title>Custom App</title>
    <script src="https://cdn.tailwindcss.com"></script>
</head>
<body class="min-h-screen bg-gradient-to-br from-purple-900 via-black to-pink-900 flex items-center justify-center">
    <div class="text-center text-white">
        <h1 class="text-4xl font-bold mb-4">Custom App</h1>
        <p class="text-xl">Created based on your request: ""#);
    artifact.push_str(request);
    artifact.push_str(r#""</p>
        <div class="mt-6">
            <button class="bg-gradient-to-r from-pink-500 to-purple-500 px-6 py-3 rounded-lg hover:scale-105 transition-transform">
                Click me!
            </button>
        </div>
    </div>
</body>
</html>
```

This app features beautiful gradients and interactive elements!"#);
    artifact
}

#[test]
fn todo_request_gets_task_list() {
    assert_eq!(fallback("build me a todo app", false), todo_artifact());
}

#[test]
fn todo_keyword_is_found_in_any_case() {
    assert_eq!(fallback("Build me a TODO app", false), todo_artifact());
    assert_eq!(fallback("my ToDo list", false), todo_artifact());
    assert_eq!(fallback("TODOS", false), todo_artifact());
}

#[test]
fn calculator_request_gets_keypad() {
    assert_eq!(fallback("a calculator please", false), calculator_artifact());
    assert_eq!(fallback("CALCULATOR", false), calculator_artifact());
    assert_eq!(fallback("Tip Calculator", false), calculator_artifact());
}

#[test]
fn todo_is_searched_before_calculator() {
    assert_eq!(fallback("todo calculator", false), todo_artifact());
    assert_eq!(fallback("calculator with a todo list", false), todo_artifact());
}

#[test]
fn other_request_gets_generic_page_quoting_it() {
    let artifact = fallback("a weather dashboard", false);
    assert_eq!(artifact, generic_artifact("a weather dashboard"));
    assert!(artifact.contains("Created based on your request: \"a weather dashboard\""));
    assert!(artifact.contains("<title>Custom App</title>"));
}

#[test]
fn generic_page_keeps_request_case_and_symbols() {
    let request = "Snake <Game> & 100% FUN {now} 🍒";
    let artifact = fallback(request, false);
    assert_eq!(artifact, generic_artifact(request));
    assert!(artifact.contains(request));
}

#[test]
fn empty_request_gets_generic_page() {
    let artifact = fallback("", false);
    assert_eq!(artifact, generic_artifact(""));
    assert!(artifact.contains("Created based on your request: \"\""));
}

#[test]
fn partial_keyword_does_not_match() {
    assert_eq!(fallback("tod o calculato", false), generic_artifact("tod o calculato"));
}

#[test]
fn fix_attempt_gets_fixed_page_whatever_the_request() {
    assert_eq!(fallback("build me a todo app", true), fixed_artifact());
    assert_eq!(fallback("a calculator please", true), fixed_artifact());
    assert_eq!(fallback("x", true), fixed_artifact());
    assert_eq!(fallback("", true), fixed_artifact());
}

#[test]
fn fixed_page_is_not_the_task_list() {
    assert_ne!(fallback("todo", true), fallback("todo", false));
    assert!(fallback("todo", true).contains("<title>Fixed App</title>"));
    assert!(!fallback("todo", true).contains("Todo List"));
}

#[test]
fn fallback_gives_same_bytes_each_time() {
    for request in ["todo", "calculator", "anything else", ""] {
        for flag in [false, true] {
            let first = fallback(request, flag);
            let second = fallback(request, flag);
            assert_eq!(first.as_bytes(), second.as_bytes());
        }
    }
}

#[test]
fn fallback_is_never_empty() {
    for request in ["todo", "calculator", "anything else", ""] {
        for flag in [false, true] {
            assert!(!fallback(request, flag).is_empty());
        }
    }
}

#[test]
fn every_artifact_holds_a_fenced_page() {
    for request in ["todo", "calculator", "anything else"] {
        for flag in [false, true] {
            let artifact = fallback(request, flag);
            assert!(artifact.contains("\n\n```html\n<!DOCTYPE html>"));
            assert!(artifact.contains("</html>\n```\n\n"));
        }
    }
}

#[test]
fn fallback_for_searches_the_lowered_text_only() {
    assert_eq!(fallback_for("todo", "anything", false), todo_artifact());
    assert_eq!(fallback_for("anything", "TODO", false), generic_artifact("TODO"));
    assert_eq!(fallback_for("calculator", "sums", false), calculator_artifact());
    assert_eq!(fallback_for("todo", "todo", true), fixed_artifact());
}

#[test]
fn select_routes_by_flag_then_keyword() {
    assert_eq!(Template::select("a todo app", false), Template::Todo);
    assert_eq!(Template::select("a calculator", false), Template::Calculator);
    assert_eq!(Template::select("a game", false), Template::Generic);
    assert_eq!(Template::select("a todo app", true), Template::Fixed);
    assert_eq!(Template::select("a game", true), Template::Fixed);
}

#[test]
fn render_matches_layouts() {
    assert_eq!(Template::Todo.render("ignored"), todo_artifact());
    assert_eq!(Template::Calculator.render("ignored"), calculator_artifact());
    assert_eq!(Template::Fixed.render("ignored"), fixed_artifact());
    assert_eq!(Template::Generic.render("quoted"), generic_artifact("quoted"));
}
