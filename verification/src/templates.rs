//! The static chat page served at the root route.

use vstd::prelude::*;

verus! {

/// The text of the chat page, the fixed constant the root route serves.
pub open spec fn chat_page() -> Seq<char> {
    r#"<!DOCTYPE html>
<html lang="en">
<head>
<meta charset="utf-8">
<meta name="viewport" content="width=device-width, initial-scale=1">
<title>Code Generator</title>
<style>
body { font-family: Arial, Helvetica, sans-serif; margin: 0; background: #f3f4f6; }
main { max-width: 48rem; margin: 2rem auto; padding: 1rem; }
textarea { width: 100%; min-height: 6rem; padding: 0.75rem; border: 1px solid #d1d5db; border-radius: 0.5rem; font-size: 1rem; }
button { margin-top: 0.75rem; padding: 0.6rem 1.4rem; border: 0; border-radius: 0.5rem; background: #111827; color: #fff; font-size: 1rem; cursor: pointer; }
#log { margin-top: 1rem; white-space: pre-wrap; font-family: monospace; background: #fff; border: 1px solid #e5e7eb; border-radius: 0.5rem; padding: 0.75rem; min-height: 8rem; }
#preview { margin-top: 1rem; border: 1px solid #e5e7eb; border-radius: 0.5rem; background: #fff; padding: 0.75rem; }
</style>
</head>
<body>
<main>
<h1>Code Generator</h1>
<p>Describe the app you want and the generated HTML streams in below.</p>
<textarea id="prompt" placeholder="A todo list with local storage"></textarea>
<button onclick="generate()">Generate</button>
<div id="log"></div>
<div id="preview"></div>
<script>
async function generate() {
  const log = document.getElementById('log');
  const preview = document.getElementById('preview');
  log.textContent = '';
  let html = '';
  const resp = await fetch('/generate/stream', {
    method: 'POST',
    headers: { 'Content-Type': 'application/json' },
    body: JSON.stringify({ prompt: document.getElementById('prompt').value })
  });
  if (!resp.ok) { log.textContent = 'Error: ' + resp.status; return; }
  const reader = resp.body.getReader();
  const decoder = new TextDecoder();
  let buffer = '';
  let eventName = '';
  for (;;) {
    const { done, value } = await reader.read();
    if (done) break;
    buffer += decoder.decode(value, { stream: true });
    let idx;
    while ((idx = buffer.indexOf('\n')) >= 0) {
      const line = buffer.slice(0, idx).trim();
      buffer = buffer.slice(idx + 1);
      if (line.startsWith('event: ')) { eventName = line.slice(7); continue; }
      if (!line.startsWith('data: ')) { eventName = ''; continue; }
      const data = line.slice(6);
      if (eventName === 'token') {
        try { html += JSON.parse(data).text; preview.innerHTML = html; } catch (e) {}
      } else {
        log.textContent += data + '\n';
      }
      eventName = '';
    }
  }
}
</script>
</main>
</body>
</html>
"#@
}

/// The self-contained HTML chat page of the relay's informational route:
/// always the same page, `chat_page`.
pub fn chat_interface() -> (r: &'static str)
    ensures
        r@ == chat_page(),
{
    r#"<!DOCTYPE html>
<html lang="en">
<head>
<meta charset="utf-8">
<meta name="viewport" content="width=device-width, initial-scale=1">
<title>Code Generator</title>
<style>
body { font-family: Arial, Helvetica, sans-serif; margin: 0; background: #f3f4f6; }
main { max-width: 48rem; margin: 2rem auto; padding: 1rem; }
textarea { width: 100%; min-height: 6rem; padding: 0.75rem; border: 1px solid #d1d5db; border-radius: 0.5rem; font-size: 1rem; }
button { margin-top: 0.75rem; padding: 0.6rem 1.4rem; border: 0; border-radius: 0.5rem; background: #111827; color: #fff; font-size: 1rem; cursor: pointer; }
#log { margin-top: 1rem; white-space: pre-wrap; font-family: monospace; background: #fff; border: 1px solid #e5e7eb; border-radius: 0.5rem; padding: 0.75rem; min-height: 8rem; }
#preview { margin-top: 1rem; border: 1px solid #e5e7eb; border-radius: 0.5rem; background: #fff; padding: 0.75rem; }
</style>
</head>
<body>
<main>
<h1>Code Generator</h1>
<p>Describe the app you want and the generated HTML streams in below.</p>
<textarea id="prompt" placeholder="A todo list with local storage"></textarea>
<button onclick="generate()">Generate</button>
<div id="log"></div>
<div id="preview"></div>
<script>
async function generate() {
  const log = document.getElementById('log');
  const preview = document.getElementById('preview');
  log.textContent = '';
  let html = '';
  const resp = await fetch('/generate/stream', {
    method: 'POST',
    headers: { 'Content-Type': 'application/json' },
    body: JSON.stringify({ prompt: document.getElementById('prompt').value })
  });
  if (!resp.ok) { log.textContent = 'Error: ' + resp.status; return; }
  const reader = resp.body.getReader();
  const decoder = new TextDecoder();
  let buffer = '';
  let eventName = '';
  for (;;) {
    const { done, value } = await reader.read();
    if (done) break;
    buffer += decoder.decode(value, { stream: true });
    let idx;
    while ((idx = buffer.indexOf('\n')) >= 0) {
      const line = buffer.slice(0, idx).trim();
      buffer = buffer.slice(idx + 1);
      if (line.startsWith('event: ')) { eventName = line.slice(7); continue; }
      if (!line.startsWith('data: ')) { eventName = ''; continue; }
      const data = line.slice(6);
      if (eventName === 'token') {
        try { html += JSON.parse(data).text; preview.innerHTML = html; } catch (e) {}
      } else {
        log.textContent += data + '\n';
      }
      eventName = '';
    }
  }
}
</script>
</main>
</body>
</html>
"#
}

} // verus!
