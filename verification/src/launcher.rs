//! The autostart launcher's decisions: which widgets to open at startup, and
//! the launch-entry file that registers the application itself.
//!
//! Opening the selected windows is the host layer's work; a failure to open
//! one widget is discarded there so it cannot block the rest.
use vstd::prelude::*;

use crate::records::Widget;

verus! {

/// The widgets flagged to start automatically, in stored order.
#[verifier::loop_isolation(false)]
pub fn autostart_widgets(widgets: &Vec<Widget>) -> (r: Vec<Widget>)
    ensures
        r@ == widgets@.filter(|w: Widget| w.auto_start),
{
    let ghost pred = |w: Widget| w.auto_start;
    let n = widgets.len();
    let mut out: Vec<Widget> = Vec::new();
    proof {
        reveal(Seq::filter);
        assert(widgets@.subrange(0, 0) =~= Seq::<Widget>::empty());
    }
    let mut i: usize = 0;
    while i < n
        invariant
            i <= n,
            out@ == widgets@.subrange(0, i as int).filter(pred),
        decreases n - i,
    {
        let ghost prefix = widgets@.subrange(0, i as int);
        proof {
            assert(widgets@.subrange(0, i + 1) =~= prefix.push(widgets@[i as int]));
            reveal(Seq::filter);
            assert(prefix.push(widgets@[i as int]).drop_last() == prefix);
        }
        if widgets[i].auto_start {
            out.push(widgets[i].clone());
        }
        i += 1;
    }
    proof {
        assert(widgets@.subrange(0, n as int) =~= widgets@);
    }
    out
}

/// The launch entry registering the application at `exe` for autostart.
pub open spec fn desktop_entry_of(exe: Seq<char>) -> Seq<char> {
    "[Desktop Entry]\nType=Application\nName=DashLayer\nComment=Desktop Widget Manager\nExec="@
        + exe
        + "\nIcon=dashlayer\nTerminal=false\nCategories=Utility;\nStartupNotify=false\nX-GNOME-Autostart-enabled=true\n"@
}

/// Builds the launch entry for the executable at `exe_path`.
pub fn desktop_entry_content(exe_path: &str) -> (r: String)
    ensures
        r@ == desktop_entry_of(exe_path@),
{
    let mut s = String::new();
    s.append(
        "[Desktop Entry]\nType=Application\nName=DashLayer\nComment=Desktop Widget Manager\nExec=",
    );
    s.append(exe_path);
    s.append(
        "\nIcon=dashlayer\nTerminal=false\nCategories=Utility;\nStartupNotify=false\nX-GNOME-Autostart-enabled=true\n",
    );
    s
}

} // verus!
