//! The widget renderer: turns a widget definition into the self-contained
//! HTML document its window loads.
//!
//! The document embeds the widget's CSS in a style block, its HTML in a root
//! container sized to fill the window, and its JS in a script block wrapped
//! in an exception guard, with the container's opacity set to the widget's
//! opacity divided by 100. The content fields are embedded verbatim: widget
//! content is authored by the user who runs the application, and escaping it
//! would break legitimate markup.
use vstd::prelude::*;

use crate::records::Widget;

verus! {

/// The decimal digit `d` as a character.
pub open spec fn digit_char(d: int) -> char {
    if d == 0 {
        '0'
    } else if d == 1 {
        '1'
    } else if d == 2 {
        '2'
    } else if d == 3 {
        '3'
    } else if d == 4 {
        '4'
    } else if d == 5 {
        '5'
    } else if d == 6 {
        '6'
    } else if d == 7 {
        '7'
    } else if d == 8 {
        '8'
    } else {
        '9'
    }
}

/// The opacity `n` (0 to 100) written as the alpha value `n / 100` in its
/// shortest decimal form: `100` is "1", `0` is "0", `35` is "0.35", and a
/// multiple of ten such as `50` drops the trailing zero, "0.5".
pub open spec fn opacity_seq(n: int) -> Seq<char> {
    if n >= 100 {
        seq!['1']
    } else if n == 0 {
        seq!['0']
    } else if n % 10 == 0 {
        seq!['0', '.', digit_char(n / 10)]
    } else {
        seq!['0', '.', digit_char(n / 10), digit_char(n % 10)]
    }
}

/// The document up to the title text.
pub open spec fn doc_prefix() -> Seq<char> {
    "<!DOCTYPE html>\n<html lang=\"en\" style=\"margin:0;padding:0;height:100%;overflow:hidden;\">\n<head>\n    <meta charset=\"UTF-8\">\n    <meta name=\"viewport\" content=\"width=device-width, initial-scale=1.0\">\n    <title>"@
}

/// From the title text to the root container's opacity value.
pub open spec fn doc_style_prefix() -> Seq<char> {
    "</title>\n    <style>\n        *, *::before, *::after {\n            margin: 0;\n            padding: 0;\n            box-sizing: border-box;\n        }\n        \n        html, body {\n            width: 100%;\n            height: 100%;\n            overflow: hidden;\n            background: transparent;\n            font-family: -apple-system, BlinkMacSystemFont, 'Segoe UI', Roboto, sans-serif;\n        }\n        \n        #widget-root {\n            width: 100%;\n            height: 100%;\n            opacity: "@
}

/// From the opacity value to the widget's own CSS.
pub open spec fn doc_style_suffix() -> Seq<char> {
    ";\n        }\n        \n        "@
}

/// From the widget's CSS to its HTML body.
pub open spec fn doc_body_prefix() -> Seq<char> {
    "\n    </style>\n</head>\n<body>\n    <div id=\"widget-root\">"@
}

/// From the widget's HTML to its script, opening the exception guard.
pub open spec fn doc_script_prefix() -> Seq<char> {
    "</div>\n    <script>\n        try { "@
}

/// After the widget's script: the guard's catch arm and the closing tags.
pub open spec fn doc_suffix() -> Seq<char> {
    " } catch(e) { console.error('Widget error:', e); }\n    </script>\n</body>\n</html>"@
}

/// The whole document rendered for `w`: name, opacity, CSS, HTML and JS
/// spliced verbatim between the fixed parts.
pub open spec fn rendered_doc(w: Widget) -> Seq<char> {
    doc_prefix() + w.name@ + doc_style_prefix() + opacity_seq(
        w.opacity as int,
    ) + doc_style_suffix() + w.css@ + doc_body_prefix() + w.html@ + doc_script_prefix() + w.js@
        + doc_suffix()
}

/// The decimal digit `d` as a one-character string.
fn digit_str(d: u8) -> (r: &'static str)
    requires
        d < 10,
    ensures
        r@ == seq![digit_char(d as int)],
{
    if d == 0 {
        proof {
            reveal_strlit("0");
            assert("0"@ =~= seq!['0']);
        }
        "0"
    } else if d == 1 {
        proof {
            reveal_strlit("1");
            assert("1"@ =~= seq!['1']);
        }
        "1"
    } else if d == 2 {
        proof {
            reveal_strlit("2");
            assert("2"@ =~= seq!['2']);
        }
        "2"
    } else if d == 3 {
        proof {
            reveal_strlit("3");
            assert("3"@ =~= seq!['3']);
        }
        "3"
    } else if d == 4 {
        proof {
            reveal_strlit("4");
            assert("4"@ =~= seq!['4']);
        }
        "4"
    } else if d == 5 {
        proof {
            reveal_strlit("5");
            assert("5"@ =~= seq!['5']);
        }
        "5"
    } else if d == 6 {
        proof {
            reveal_strlit("6");
            assert("6"@ =~= seq!['6']);
        }
        "6"
    } else if d == 7 {
        proof {
            reveal_strlit("7");
            assert("7"@ =~= seq!['7']);
        }
        "7"
    } else if d == 8 {
        proof {
            reveal_strlit("8");
            assert("8"@ =~= seq!['8']);
        }
        "8"
    } else {
        proof {
            reveal_strlit("9");
            assert("9"@ =~= seq!['9']);
        }
        "9"
    }
}

/// The opacity field written as a CSS alpha value.
pub fn opacity_string(op: u8) -> (r: String)
    requires
        op <= 100,
    ensures
        r@ == opacity_seq(op as int),
{
    if op == 100 {
        proof {
            reveal_strlit("1");
            assert("1"@ =~= seq!['1']);
        }
        String::from_str("1")
    } else if op == 0 {
        proof {
            reveal_strlit("0");
            assert("0"@ =~= seq!['0']);
        }
        String::from_str("0")
    } else {
        let mut s = String::from_str("0.");
        proof {
            reveal_strlit("0.");
            assert("0."@ =~= seq!['0', '.']);
        }
        let tens = op / 10;
        let ones = op % 10;
        s.append(digit_str(tens));
        if ones != 0 {
            s.append(digit_str(ones));
            assert(s@ =~= opacity_seq(op as int));
        } else {
            assert(s@ =~= opacity_seq(op as int));
        }
        s
    }
}

/// Renders the self-contained document for `w`.
pub fn render(w: &Widget) -> (r: String)
    requires
        w.wf(),
    ensures
        r@ == rendered_doc(*w),
{
    let mut s = String::new();
    s.append(
        "<!DOCTYPE html>\n<html lang=\"en\" style=\"margin:0;padding:0;height:100%;overflow:hidden;\">\n<head>\n    <meta charset=\"UTF-8\">\n    <meta name=\"viewport\" content=\"width=device-width, initial-scale=1.0\">\n    <title>",
    );
    s.append(w.name.as_str());
    s.append(
        "</title>\n    <style>\n        *, *::before, *::after {\n            margin: 0;\n            padding: 0;\n            box-sizing: border-box;\n        }\n        \n        html, body {\n            width: 100%;\n            height: 100%;\n            overflow: hidden;\n            background: transparent;\n            font-family: -apple-system, BlinkMacSystemFont, 'Segoe UI', Roboto, sans-serif;\n        }\n        \n        #widget-root {\n            width: 100%;\n            height: 100%;\n            opacity: ",
    );
    let op = opacity_string(w.opacity);
    s.append(op.as_str());
    s.append(";\n        }\n        \n        ");
    s.append(w.css.as_str());
    s.append("\n    </style>\n</head>\n<body>\n    <div id=\"widget-root\">");
    s.append(w.html.as_str());
    s.append("</div>\n    <script>\n        try { ");
    s.append(w.js.as_str());
    s.append(" } catch(e) { console.error('Widget error:', e); }\n    </script>\n</body>\n</html>");
    proof {
        assert(s@ =~= rendered_doc(*w));
    }
    s
}

/// `sub` occurs verbatim, contiguously, somewhere in `hay`.
pub open spec fn contains_sub(hay: Seq<char>, sub: Seq<char>) -> bool {
    exists|k: int|
        0 <= k && k + sub.len() <= hay.len() && #[trigger] hay.subrange(k, k + sub.len()) == sub
}

/// The middle part of a concatenation occurs in it verbatim.
proof fn lemma_concat_contains(a: Seq<char>, b: Seq<char>, c: Seq<char>)
    ensures
        contains_sub(a + b + c, b),
{
    let h = a + b + c;
    assert(h.subrange(a.len() as int, (a.len() + b.len()) as int) =~= b);
    assert(0 <= a.len() && a.len() + b.len() <= h.len());
}

/// The rendered document embeds the widget's CSS, HTML and JS verbatim, and
/// carries the widget's opacity as the alpha value `opacity / 100`.
pub proof fn lemma_rendered_doc_embeds_content(w: Widget)
    ensures
        contains_sub(rendered_doc(w), w.css@),
        contains_sub(rendered_doc(w), w.html@),
        contains_sub(rendered_doc(w), w.js@),
        contains_sub(rendered_doc(w), opacity_seq(w.opacity as int)),
{
    let d = rendered_doc(w);
    let op = opacity_seq(w.opacity as int);
    let pre_op = doc_prefix() + w.name@ + doc_style_prefix();
    let post_op = doc_style_suffix() + w.css@ + doc_body_prefix() + w.html@ + doc_script_prefix()
        + w.js@ + doc_suffix();
    assert(d =~= pre_op + op + post_op);
    lemma_concat_contains(pre_op, op, post_op);

    let pre_css = pre_op + op + doc_style_suffix();
    let post_css = doc_body_prefix() + w.html@ + doc_script_prefix() + w.js@ + doc_suffix();
    assert(d =~= pre_css + w.css@ + post_css);
    lemma_concat_contains(pre_css, w.css@, post_css);

    let pre_html = pre_css + w.css@ + doc_body_prefix();
    let post_html = doc_script_prefix() + w.js@ + doc_suffix();
    assert(d =~= pre_html + w.html@ + post_html);
    lemma_concat_contains(pre_html, w.html@, post_html);

    let pre_js = pre_html + w.html@ + doc_script_prefix();
    assert(d =~= pre_js + w.js@ + doc_suffix());
    lemma_concat_contains(pre_js, w.js@, doc_suffix());
}

} // verus!
