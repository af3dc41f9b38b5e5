[package]
name = "kioskwm"
version = "0.1.0"
edition = "2021"
publish = false

[dependencies]
xcursor = "0.3"
smithay = { version = "0.6", default-features = false, features = ["backend_drm", "backend_gbm", "backend_egl", "backend_libinput", "backend_session_libseat", "backend_udev", "backend_winit", "renderer_gl", "desktop", "wayland_frontend", "xwayland"] }
calloop = { version = "0.14", features = ["signals"] }
clap = { version = "4", features = ["derive"] }
fontdue = "0.9"
libc = "0.2"
raw-window-handle = "0.6"
resvg = { version = "0.45", default-features = false }
usvg = { version = "0.45", default-features = false }
tiny-skia = "0.11"
tracing = "0.1"
tracing-subscriber = "0.3"
wayland-backend = { version = "0.3", features = ["client_system"] }
wayland-client = "0.31"
wayland-protocols = { version = "0.32", features = ["client", "server", "unstable"] }
wayland-server = "0.31"
winit = "0.30"
xkbcommon = "0.8"
