# stage_forward_lab

A language model that is too large for one machine is run in stages, each with a range of its
layers. This crate holds what the stages agree on: the tensors that they hand to one another, the
part of a stage's inner state that crosses a boundary with them, and the terms on which the next
stage resumes with it. Every function of the library is proved against its contract with Verus.

## Layout

- `src/` is the library.
  - `tensor`, `framing`, `bytes_b64`, `hidden`: tensors, their byte sections and their encodings.
  - `carry`, `execution`, `capabilities`: the carried state, its policies and budgets, and what a
    program of operations can resume.
  - `frame`, `boundary`, `resume`, `backend`: frames, the plan for a boundary, the request to
    resume, and the decision about it.
  - `bundle`, `packed`, `model_view`: runtime bundles, packed tensors, and the model as its tensor
    names tell of it.
  - `layer_plan`, `layer_run`, `sketch`, `quants`: what a layer does with which tensor, what it
    takes over and leaves, and how quantized tensors are decoded.
  - `stub`, `toy`: small backends.
  - `prompting`, `prompt_suite`: prompt templates and validation prompts.
  - `text`, `names`, `lanes`, `number`, `model`: the vocabulary that the contracts are written in.
- `tests/` runs the library.
- `app/` is ordinary Rust around it: files, the wire format, and floating-point arithmetic.

## Reading the contracts

A type `X` with text or lists in it has a mathematical counterpart `XModel`, which is its view.
Contracts say what a result is in terms of these models. A check returns its first complaint as a
sentence, and its contract names the sentence for each input. Floating-point numbers appear as bit
patterns, blend weights as thousandths. Laws that relate several functions are public proof
functions, whose names begin with `lemma_`.

What is believed without proof: `debug_str` and `String::push` in `text`, and the two calls into
the base64 crate in `bytes_b64`.
