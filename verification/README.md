# clashtui_tray

A system tray launcher for clashtui on Windows. The icon shows how traffic reaches the core: white
for normal, yellow for TUN, blue for the system proxy. A left click toggles clashtui; the menu
switches modes, opens the web dashboard, restarts or stops the core, and switches autostart.

`src/` is the library that decides what the tray does. It is written in Verus: its functions carry
contracts, and these are proved. Ten small wrappers are the exception. They call `serde_json`
(`json`), `image` (`icon`) and two string functions of std (`text`), and what their contracts say of
those calls is trusted.

The library performs nothing itself. `application` holds the tray as a machine that takes events,
hands out steps (`steps`), and takes the replies; `desktop` models what the steps do to a desktop,
and `laws` states what holds of the tray as a whole. Beside them stand the commands it runs (`command`, `paths`, `text`), what it says to the core
(`core_api`, `json`), what it reads from the registry (`settings`), its menu (`menu`), its modes
(`mode`) and its pictures (`icon`).

`app/` is the program around the library: it carries out the steps with the tray, the registry,
the network and the file system. `tests/` runs the library on a desktop in memory.

The executable carries the pictures of the three modes, so that no folder of pictures has to be
installed with it. They are embedded from `assets/`, beside `src/` and `app/`, and have to be put
there before the program is built:

- `assets/tray_white.png`, white, for the normal mode;
- `assets/tray_tun.png`, yellow, for TUN;
- `assets/tray_sysproxy.png`, blue, for the system proxy.

Files of the same names in `assets` next to the executable, beside it, or in `../tray/assets` take
their place. A picture is scaled into a square of 256 pixels with its ratio kept.
