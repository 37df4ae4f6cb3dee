use vstd::prelude::*;
use crate::text::{escape, quoted, push_quoted, push_escaped, push_str, string_from};

verus! {

/// Builders of the SKILL code that inspects and drives Virtuoso windows.
pub struct WindowOps;

/// The SKILL text that `WindowOps::dismiss_dialog` builds.
pub open spec fn dismiss_dialog_text(action: Seq<char>) -> Seq<char> {
    if action == "ok"@ {
        "let((d) d = hiGetCurrentDialog() if(d hiSendOK(d) \"no-dialog\"))"@
    } else {
        "let((d) d = hiGetCurrentDialog() if(d hiCancelDialog(d) \"no-dialog\"))"@
    }
}

/// The SKILL fragment that captures the root window with X11 `import` into
/// `path` and yields the path when the file exists afterwards, nil otherwise.
pub open spec fn capture_text(path: Seq<char>) -> Seq<char> {
    "let((cmd) cmd = sprintf(nil \"import -window root -display %s "@ + escape(path)
        + "\" getShellEnvVar(\"DISPLAY\")) system(cmd) if(isFile("@ + quoted(path) + ") "@
        + quoted(path) + " nil))"@
}

/// The SKILL text that `WindowOps::screenshot` builds.
pub open spec fn screenshot_text(path: Seq<char>) -> Seq<char> {
    capture_text(path)
}

/// The SKILL text that `WindowOps::screenshot_by_pattern` builds.
pub open spec fn screenshot_by_pattern_text(path: Seq<char>, pattern: Seq<char>) -> Seq<char> {
    "let((matched) matched = nil foreach(w hiGetWindowList() when(rexMatchp("@ + quoted(pattern)
        + " hiGetWindowName(w)) matched = t)) if(matched "@ + capture_text(path) + " \"no-match\"))"@
}


/// The SKILL text that `WindowOps::list_windows` builds.
pub open spec fn list_windows_text() -> Seq<char> {
    "let((out sep) out = \"[\" sep = \"\" foreach(w hiGetWindowList() out = strcat(out sep sprintf(nil \"{\\\"name\\\":\\\"%s\\\"}\" hiGetWindowName(w))) sep = \",\") strcat(out \"]\"))"@
}

/// The SKILL text that `WindowOps::get_dialog_info` builds.
pub open spec fn get_dialog_info_text() -> Seq<char> {
    "let((d) d = hiGetCurrentDialog() if(d hiGetWindowName(d) \"no-dialog\"))"@
}

impl WindowOps {
    /// List all open Virtuoso windows.
    /// Returns a JSON array string: [{"name":"ADE Explorer Editing: ..."}]
    pub fn list_windows(&self) -> (r: String)
        ensures
            r@ == list_windows_text(),
    {
        let mut r = string_from("let((out sep) out = \"[\" sep = \"\" foreach(w hiGetWindowList() out = strcat(out sep sprintf(nil \"{\\\"name\\\":\\\"%s\\\"}\" hiGetWindowName(w))) sep = \",\") strcat(out \"]\"))");
        r
    }

    /// Get the name of the current dialog without dismissing it.
    /// Returns "no-dialog" if no dialog is active.
    pub fn get_dialog_info(&self) -> (r: String)
        ensures
            r@ == get_dialog_info_text(),
    {
        let mut r = string_from("let((d) d = hiGetCurrentDialog() if(d hiGetWindowName(d) \"no-dialog\"))");
        r
    }

    /// Dismiss the current blocking dialog.
    /// action: "ok" attempts OK/Yes button; anything else closes via Cancel.
    pub fn dismiss_dialog(&self, action: &str) -> (r: String)
        ensures
            r@ == dismiss_dialog_text(action@),
    {
        if crate::text::str_eq(action, "ok") {
            string_from("let((d) d = hiGetCurrentDialog() if(d hiSendOK(d) \"no-dialog\"))")
        } else {
            string_from("let((d) d = hiGetCurrentDialog() if(d hiCancelDialog(d) \"no-dialog\"))")
        }
    }

    /// Capture a screenshot of the current Virtuoso window to a PNG file.
    ///
    /// Uses X11 `import` (ImageMagick) via system(); the file path is checked
    /// with `isFile` after the capture to tell success from failure.
    pub fn screenshot(&self, path: &str) -> (r: String)
        ensures
            r@ == screenshot_text(path@),
    {
        let mut r = String::new();
        Self::push_capture(&mut r, path);
        r
    }

    /// Capture a screenshot when some window's name matches a regex pattern;
    /// yields "no-match" otherwise. The capture itself is of the root window.
    pub fn screenshot_by_pattern(&self, path: &str, pattern: &str) -> (r: String)
        ensures
            r@ == screenshot_by_pattern_text(path@, pattern@),
    {
        let mut r = string_from("let((matched) matched = nil foreach(w hiGetWindowList() when(rexMatchp(");
        push_quoted(&mut r, pattern);
        push_str(&mut r, " hiGetWindowName(w)) matched = t)) if(matched ");
        Self::push_capture(&mut r, path);
        push_str(&mut r, " \"no-match\"))");
        r
    }

    fn push_capture(r: &mut String, path: &str)
        ensures
            final(r)@ == old(r)@ + capture_text(path@),
    {
        push_str(r, "let((cmd) cmd = sprintf(nil \"import -window root -display %s ");
        push_escaped(r, path);
        push_str(r, "\" getShellEnvVar(\"DISPLAY\")) system(cmd) if(isFile(");
        push_quoted(r, path);
        push_str(r, ") ");
        push_quoted(r, path);
        push_str(r, " nil))");
    }
}

} // verus!
