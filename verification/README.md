# retro_veneer

RetroVeneer boots a Raspberry Pi straight into the emulator of a modern
retro computer (Commander X16 or TIC-80), behind a small menu-driven front
end, and comes with a graphical installer.

- `src/` is the verified library:
  - `menu_nav` — the menus and how the arrow keys move through them;
  - `ui` — the front end's per-frame state machine (`UiState::frame`),
    with its model in spec functions; `ui_laws` — what holds across frames
    (the countdown, Escape, autostart, exit, the stored platform);
  - `scene`, `screens` — the drawing commands of every screen, and which
    entry stands out;
  - `config` — the platform file, the update decision, the desktop entry
    and the launcher script; `paths` — the files under the home directory
    and the shell commands built on them;
  - `installer` — the installer's steps, their commands and its window;
  - `spinner` — the busy indicator.
- `app/` runs the window (raylib), the timers (tokio), the files and the
  processes, and carries out what the library decides.  `--installer`
  selects the installer.
