# Knowledge

A reading-list service: users save URLs, the service fetches each page,
keeps its readable article, converts it to Markdown, asks a language model
for a category and a summary, and shows it all on a small web site. A
command-line client signs users up, remembers who is logged in and adds URLs.

- `src/` is the library, verified with Verus: identifiers and the session
  file (`ids`, `cli`), text handling (`text`), saved pages (`urls`), page
  snapshots and Markdown (`page_snapshot`, `markdown`), prompts (`prompts`),
  users, sessions, login, sign-up and the admin area (`users`), the page
  layout and every page's markup (`templates`, `pages`), Slack commands
  (`slack`), jobs and the scheduler switch (`jobs`), and database setup
  (`db`).
- `app/` is the program around it: the web server, the database queries,
  the HTTP calls, the terminal and files.
- `tests/` exercises the library on concrete values.
