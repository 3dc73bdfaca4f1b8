# artifex-client-gtk

A desktop client for Artifex servers. The verified library (`src/`) holds
what the client decides: how the `{}` placeholders of translated messages
are filled, which message each label, title and error shows, when a connection may be attempted and what follows
its outcome, the list of recently used server addresses, the command list of
the execution page, the state of the inspection, upgrade and batch pages,
the TLS configuration drawn from the settings, and the lookup of the key
password. `app/` is the GTK front end: it builds the widgets, talks to the
server and to the secret service, reads the clock and the message catalogs,
and renders the state kept by the library, translating its messages.

- `src/i18n.rs`: placeholder interpolation.
- `src/command.rs`: commands and their status.
- `src/execution.rs`: command bar, command list, execution page.
- `src/widgets.rs`: connection bar, status page, operation rows, page frame,
  certificate chooser, preferences dialog.
- `src/window.rs`: the main window and the connection workflow.
- `src/pages.rs`: inspection, upgrade and batch execution pages.
- `src/client.rs`, `src/secrets.rs`: settings, TLS configuration, secrets.
