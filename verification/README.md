# vibepanel dock and launcher, verified

The decision logic of vibepanel's Hyprland dock and its launcher widget,
proved with Verus.

- `src/dock.rs`: whether the dock or a fallback bottom bar is built, and the
  dock window's layout; `src/dock/auto_hide.rs`: the auto-hide state
  machine (hotzone reveal, delayed hide, single hide timer) and its laws.
- `src/widgets/launcher.rs`: reading the `[widgets.launcher]` options,
  icon-size resolution, what a click does, which running dots show.
- `src/widgets/css/dock.rs`: the dock stylesheet.
- `src/config.rs`: the option values a widget reads; `src/text.rs`: the
  lowercase mapping of std.
- `app/`: the GTK4 / layer-shell side that performs the library's decisions.
