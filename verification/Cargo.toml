[package]
name = "loop_coordinator"
version = "0.1.0"
edition = "2021"
publish = false

[dependencies]
objc2 = { version = "=0.5.3", features = ["gnustep-1-7"] }
objc2-app-kit = { version = "=0.2.2", features = ["gnustep-1-7", "NSApplication", "NSEvent", "NSGraphics", "NSResponder", "NSRunningApplication", "NSWindow"] }
objc2-foundation = { version = "=0.2.2", features = ["gnustep-1-7", "NSArray", "NSGeometry", "NSNotification", "NSObject", "NSString", "NSThread"] }
serde = { version = "=1.0.229", features = ["derive"] }
tracing = { version = "=0.1.44", default-features = false }
