//! The on-device file server's page building.
//!
//! The server itself — sockets, request handlers, the directory walk —
//! runs outside this crate; what lives here is the text it serves: the
//! request-path normalization and the HTML listing a directory's entries,
//! each entry given as its name and whether it is a directory.

use vstd::prelude::*;
use vstd::string::StrSliceExecFns;
use vstd::string::StringExecFns;
use crate::textfmt::str_equal;

verus! {

/// The directory path a file-server request stands for: an empty or root
/// request means the storage root, and a trailing slash is guaranteed.
pub open spec fn spec_normalize_uri(uri: Seq<char>) -> Seq<char> {
    if uri.len() == 0 || uri == "/"@ {
        "/fat/"@
    } else if uri[uri.len() - 1] == '/' {
        uri
    } else {
        uri.push('/')
    }
}

/// Normalizes a file-server request path.
pub fn normalize_uri(uri: &str) -> (r: String)
    ensures
        r@ == spec_normalize_uri(uri@),
{
    proof {
        reveal_strlit("/");
        reveal_strlit("/fat/");
    }
    let n = uri.unicode_len();
    if n == 0 {
        return String::from_str("/fat/");
    }
    if n == 1 && uri.get_char(0) == '/' {
        proof {
            assert(uri@ =~= "/"@);
        }
        return String::from_str("/fat/");
    }
    proof {
        if uri@ == "/"@ {
            assert(uri@.len() == 1 && uri@[0] == '/');
        }
    }
    if uri.get_char(n - 1) == '/' {
        String::from_str(uri)
    } else {
        let mut out = String::from_str(uri);
        out.append("/");
        proof {
            assert(out@ =~= uri@.push('/'));
        }
        out
    }
}

/// A listed entry's icon: a folder or a document.
pub open spec fn spec_entry_icon(is_dir: bool) -> Seq<char> {
    if is_dir {
        "\u{1F4C1}"@
    } else {
        "\u{1F4C4}"@
    }
}

/// A listed entry's link target: the current path, the name, and a slash
/// after a directory.
pub open spec fn spec_entry_link(current: Seq<char>, name: Seq<char>, is_dir: bool) -> Seq<char> {
    current + name + (if is_dir {
        "/"@
    } else {
        Seq::<char>::empty()
    })
}

/// One entry's list line.
pub open spec fn spec_entry_line(current: Seq<char>, name: Seq<char>, is_dir: bool) -> Seq<char> {
    "<li>"@ + spec_entry_icon(is_dir) + " <a href='"@ + spec_entry_link(current, name, is_dir)
        + "'>"@ + name + "</a></li>"@
}

/// The list lines of all entries, in order.
pub open spec fn spec_entry_lines(current: Seq<char>, items: Seq<(String, bool)>) -> Seq<char>
    decreases items.len(),
{
    if items.len() == 0 {
        Seq::<char>::empty()
    } else {
        spec_entry_lines(current, items.drop_last()) + spec_entry_line(
            current,
            items.last().0@,
            items.last().1,
        )
    }
}

/// The whole listing page: the header, the current path, a parent link
/// everywhere but at the storage root, and one line per entry.
pub open spec fn spec_dir_html(current: Seq<char>, items: Seq<(String, bool)>) -> Seq<char> {
    "<html><head><meta charset='utf-8'><title>ESP32 File Server</title></head><body>"@
        + "<h1>current direct: "@ + current + "</h1>"@ + (if current != "/fat/"@ {
        "<p><a href='..'>[ \u{2B06}\u{FE0F} return ]</a></p>"@
    } else {
        Seq::<char>::empty()
    }) + "<ul>"@ + spec_entry_lines(current, items) + "</ul></body></html>"@
}

/// Builds the HTML listing of a directory: each entry as its name and
/// whether it is a directory, in the order given.
pub fn generate_dir_file_html(current_path: &str, items: &Vec<(String, bool)>) -> (r: String)
    ensures
        r@ == spec_dir_html(current_path@, items@),
{
    proof {
        reveal_strlit("<html><head><meta charset='utf-8'><title>ESP32 File Server</title></head><body>");
        reveal_strlit("<h1>current direct: ");
        reveal_strlit("</h1>");
        reveal_strlit("<p><a href='..'>[ \u{2B06}\u{FE0F} return ]</a></p>");
        reveal_strlit("<ul>");
        reveal_strlit("</ul></body></html>");
        reveal_strlit("/fat/");
        reveal_strlit("<li>");
        reveal_strlit("\u{1F4C1}");
        reveal_strlit("\u{1F4C4}");
        reveal_strlit(" <a href='");
        reveal_strlit("'>");
        reveal_strlit("</a></li>");
        reveal_strlit("/");
    }
    let mut out = String::from_str(
        "<html><head><meta charset='utf-8'><title>ESP32 File Server</title></head><body>",
    );
    out.append("<h1>current direct: ");
    out.append(current_path);
    out.append("</h1>");
    if !str_equal(current_path, "/fat/") {
        out.append("<p><a href='..'>[ \u{2B06}\u{FE0F} return ]</a></p>");
    }
    out.append("<ul>");
    let ghost head = out@;
    let mut i: usize = 0;
    while i < items.len()
        invariant
            i <= items@.len(),
            out@ == head + spec_entry_lines(current_path@, items@.subrange(0, i as int)),
        decreases items@.len() - i,
    {
        let (name, is_dir) = &items[i];
        out.append("<li>");
        if *is_dir {
            out.append("\u{1F4C1}");
        } else {
            out.append("\u{1F4C4}");
        }
        out.append(" <a href='");
        out.append(current_path);
        out.append(name.as_str());
        if *is_dir {
            out.append("/");
        }
        out.append("'>");
        out.append(name.as_str());
        out.append("</a></li>");
        proof {
            reveal_strlit("<li>");
            reveal_strlit("\u{1F4C1}");
            reveal_strlit("\u{1F4C4}");
            reveal_strlit(" <a href='");
            reveal_strlit("'>");
            reveal_strlit("</a></li>");
            reveal_strlit("/");
            let pre = items@.subrange(0, i as int);
            let post = items@.subrange(0, i + 1);
            assert(post.drop_last() =~= pre);
            assert(post.last() == items@[i as int]);
            assert(out@ =~= head + (spec_entry_lines(current_path@, pre) + spec_entry_line(
                current_path@,
                items@[i as int].0@,
                items@[i as int].1,
            )));
        }
        i = i + 1;
    }
    proof {
        assert(items@.subrange(0, items@.len() as int) =~= items@);
    }
    out.append("</ul></body></html>");
    proof {
        assert(out@ =~= spec_dir_html(current_path@, items@));
    }
    out
}

/// The frame of every failure page: the style header, the caller's
/// content, and a parent link.
pub open spec fn spec_general_failed_html(failed: Seq<char>) -> Seq<char> {
    "<html><head><meta charset='utf-8'><title>Failed - ESP32</title>"@
        + "<style>body{font-family:sans-serif;padding:20px;line-height:1.6;}.error-box{border:1px solid #ff4444;background:#fff5f5;padding:15px;border-radius:5px;}.btn{display:inline-block;padding:8px 15px;background:#007bff;color:white;text-decoration:none;border-radius:4px;}</style>"@
        + "</head><body>"@ + failed + "<p style='margin-top:20px;'>"@
        + "<a href='..' class='btn'>[ \u{2B05}\u{FE0F} return ]</a>"@ + "</p>"@ + "</body></html>"@
}

/// Builds the general failure page around the given content.
pub fn general_failed_html(failed_str: &str) -> (r: String)
    ensures
        r@ == spec_general_failed_html(failed_str@),
{
    proof {
        reveal_strlit("<html><head><meta charset='utf-8'><title>Failed - ESP32</title>");
        reveal_strlit("<style>body{font-family:sans-serif;padding:20px;line-height:1.6;}.error-box{border:1px solid #ff4444;background:#fff5f5;padding:15px;border-radius:5px;}.btn{display:inline-block;padding:8px 15px;background:#007bff;color:white;text-decoration:none;border-radius:4px;}</style>");
        reveal_strlit("</head><body>");
        reveal_strlit("<p style='margin-top:20px;'>");
        reveal_strlit("<a href='..' class='btn'>[ \u{2B05}\u{FE0F} return ]</a>");
        reveal_strlit("</p>");
        reveal_strlit("</body></html>");
    }
    let mut out = String::from_str(
        "<html><head><meta charset='utf-8'><title>Failed - ESP32</title>",
    );
    out.append(
        "<style>body{font-family:sans-serif;padding:20px;line-height:1.6;}.error-box{border:1px solid #ff4444;background:#fff5f5;padding:15px;border-radius:5px;}.btn{display:inline-block;padding:8px 15px;background:#007bff;color:white;text-decoration:none;border-radius:4px;}</style>",
    );
    out.append("</head><body>");
    out.append(failed_str);
    out.append("<p style='margin-top:20px;'>");
    out.append("<a href='..' class='btn'>[ \u{2B05}\u{FE0F} return ]</a>");
    out.append("</p>");
    out.append("</body></html>");
    proof {
        assert(out@ =~= spec_general_failed_html(failed_str@));
    }
    out
}

/// The failure page shown when a directory could not be read.
pub open spec fn spec_dir_failed_html(current: Seq<char>, error: Seq<char>) -> Seq<char> {
    spec_general_failed_html(
        "<h1>\u{26A0}\u{FE0F} Read path failed</h1>"@ + "<div class='error-box'>"@
            + "<p><strong>Path:</strong> "@ + current + "</p>"@ + "<p><strong>Reason:</strong> "@
            + error + "</p>"@ + "</div>"@,
    )
}

/// Builds the failure page for a directory that could not be read.
pub fn generate_dir_file_failed_html(current_path: &str, error_msg: &str) -> (r: String)
    ensures
        r@ == spec_dir_failed_html(current_path@, error_msg@),
{
    proof {
        reveal_strlit("<h1>\u{26A0}\u{FE0F} Read path failed</h1>");
        reveal_strlit("<div class='error-box'>");
        reveal_strlit("<p><strong>Path:</strong> ");
        reveal_strlit("</p>");
        reveal_strlit("<p><strong>Reason:</strong> ");
        reveal_strlit("</div>");
    }
    let mut inner = String::from_str("<h1>\u{26A0}\u{FE0F} Read path failed</h1>");
    inner.append("<div class='error-box'>");
    inner.append("<p><strong>Path:</strong> ");
    inner.append(current_path);
    inner.append("</p>");
    inner.append("<p><strong>Reason:</strong> ");
    inner.append(error_msg);
    inner.append("</p>");
    inner.append("</div>");
    proof {
        assert(inner@ =~= ("<h1>\u{26A0}\u{FE0F} Read path failed</h1>"@
            + "<div class='error-box'>"@ + "<p><strong>Path:</strong> "@ + current_path@ + "</p>"@
            + "<p><strong>Reason:</strong> "@ + error_msg@ + "</p>"@ + "</div>"@));
    }
    general_failed_html(inner.as_str())
}

} // verus!
