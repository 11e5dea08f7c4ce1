[package]
name = "appshell"
version = "0.1.0"
edition = "2021"
publish = false

[dependencies]
icrate = { version = "=0.1.2", default-features = false, features = [
    "std",
    "gnustep-1-7",
    "objective-c",
    "AppKit",
    "AppKit_NSApplication",
    "AppKit_NSEvent",
    "AppKit_NSMenu",
    "AppKit_NSMenuItem",
    "AppKit_NSResponder",
    "AppKit_NSView",
    "AppKit_NSWindow",
    "AppKit_NSWindowController",
    "Foundation",
    "Foundation_NSDate",
    "Foundation_NSNotification",
    "Foundation_NSProcessInfo",
    "Foundation_NSRunLoop",
    "Foundation_NSString",
    "Foundation_NSThread",
] }
objc2 = { version = "=0.5.2", default-features = false, features = [
    "std",
    "gnustep-1-7",
] }
