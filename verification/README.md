# SteelMouse

Battery level and charging state of SteelSeries wireless mice, shown in the
system tray.

`src/` is the verified library (Verus): decoding of the HID battery reports,
the request packets, the mouse manager that decides what to query, the
battery history with its time-remaining estimate, the interface number of a
device, the tray icon pixels, the menu texts and the settings rules.

`app/` is the tray program around it: HID access through `hidapi`, the tray
icon and menu (`tray-icon`, `tao`), settings files (`serde_json`,
`directories`), start at login, the diagnostic report and the log file.
