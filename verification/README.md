# mqo-agent

A deterministic planner that, given one natural-language question, decides which MQO pillar
tools to call and in what order, runs them, and emits a signed answer. The decisions are a
library verified with Verus; the program around it reads arguments, starts the pillar
binaries and serialises documents.

## The library (`src/`)

| Module | What it holds |
|--------|---------------|
| `planner` | period tokens, the steps of a plan and the reasons for them |
| `fixtures` | what is known of the models |
| `runner` | the run of a plan: the clarify gate, the results, the answer |
| `mock` | canned responses of the pillars |
| `outcome` | what a pillar binary came to, and the report that is made of it |
| `serve` | tool calls and replies |
| `wire`, `render` | plans, answers, checkpoints and fixtures as JSON documents, plans as text |
| `json`, `document` | JSON documents, and reading them with `serde_json` |
| `confidence` | scores by their bits: order, rounding, three decimal places |
| `decimal`, `text` | decimal notation, operations on text |
| `laws` | what holds of the agent as a whole |

A run that wants a pillar binary is handed out as a `Run`. The caller starts the binary and
goes on with `resume_with`:

```rust
let mut execution = execute_plan(&plan, &opts);
let answer = loop {
    match execution {
        Execution::Answered(answer) => break answer,
        Execution::Invoke(run) => {
            let (outcome, ms) = invoke_step(&run);
            execution = resume_with(run, &outcome, ms);
        }
    }
};
```

A mocked run never wants one.

## What is taken on trust

Contracts that are not proved stand on the functions of `document` that call `serde_json`, and
on three functions of `text` that call the standard library: lower case, white space, and
lossy UTF-8. Each says in its doc comment what it claims.

## The program (`app/`)

```sh
mqo-agent plan "Show me revenue YoY by EMEA region" --model internet_sales
mqo-agent ask "What are total sales by category?" --model tasty_bytes --mock
mqo-agent ask "Revenue stuff" --model tasty_bytes --mock --answer "revenue by product category"
mqo-agent rules
mqo-agent serve
```

When the column binding is of low confidence, the agent halts and asks, rather than guess;
`--answer` resumes. A pillar binary that is absent leaves its step skipped.
