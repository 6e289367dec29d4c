//! The two pages shown in the user's browser after the redirect: a static
//! success page, and an error page that interpolates the diagnostic message.
//! The message originates from untrusted query parameters, so it is escaped
//! and can never inject markup into the page.

use vstd::prelude::*;
use vstd::string::StringExecFns;

use crate::text::chars_to_string;
use crate::text::str_to_chars;

verus! {

/// The replacement text for one character of the interpolated message:
/// the five characters HTML assigns meaning to become entities, everything
/// else stands for itself.
pub open spec fn esc_char(c: char) -> Seq<char> {
    if c == '&' {
        seq!['&', 'a', 'm', 'p', ';']
    } else if c == '<' {
        seq!['&', 'l', 't', ';']
    } else if c == '>' {
        seq!['&', 'g', 't', ';']
    } else if c == '"' {
        seq!['&', 'q', 'u', 'o', 't', ';']
    } else if c == '\'' {
        seq!['&', '#', 'x', '2', '7', ';']
    } else {
        seq![c]
    }
}

/// HTML-escaping of a sequence of characters.
pub open spec fn escape_spec(s: Seq<char>) -> Seq<char>
    decreases s.len(),
{
    if s.len() == 0 {
        Seq::empty()
    } else {
        esc_char(s[0]) + escape_spec(s.skip(1))
    }
}

/// Escapes `s` for inclusion in HTML text, following `escape_spec`.
pub fn html_escape(s: &str) -> (r: String)
    ensures
        r@ == escape_spec(s@),
{
    let v: Vec<char> = str_to_chars(s);
    let mut out: Vec<char> = Vec::new();
    let mut i: usize = 0;
    proof {
        assert(s@.skip(0) =~= s@);
    }
    while i < v.len()
        invariant
            0 <= i <= v@.len(),
            v@ == s@,
            escape_spec(s@) =~= out@ + escape_spec(s@.skip(i as int)),
        decreases v@.len() - i,
    {
        let ghost rest = s@.skip(i as int);
        let c: char = v[i];
        if c == '&' {
            out.push('&');
            out.push('a');
            out.push('m');
            out.push('p');
            out.push(';');
        } else if c == '<' {
            out.push('&');
            out.push('l');
            out.push('t');
            out.push(';');
        } else if c == '>' {
            out.push('&');
            out.push('g');
            out.push('t');
            out.push(';');
        } else if c == '"' {
            out.push('&');
            out.push('q');
            out.push('u');
            out.push('o');
            out.push('t');
            out.push(';');
        } else if c == '\'' {
            out.push('&');
            out.push('#');
            out.push('x');
            out.push('2');
            out.push('7');
            out.push(';');
        } else {
            out.push(c);
        }
        i = i + 1;
        proof {
            assert(rest.skip(1) =~= s@.skip(i as int));
            assert(escape_spec(s@) =~= out@ + escape_spec(s@.skip(i as int)));
        }
    }
    proof {
        assert(s@.skip(s@.len() as int) =~= Seq::<char>::empty());
    }
    let n: usize = out.len();
    chars_to_string(out.as_slice(), 0, n)
}

/// The page shown on a successful authorization.
pub open spec fn success_html_spec() -> Seq<char> {
    "<!DOCTYPE html>
<html>
<head>
    <meta charset=\"utf-8\">
    <title>Authentication Successful</title>
    <style>
        * { margin: 0; padding: 0; box-sizing: border-box; }
        body {
            font-family: -apple-system, BlinkMacSystemFont, 'Segoe UI', Roboto, sans-serif;
            background: linear-gradient(135deg, #1a1a2e 0%, #16213e 100%);
            min-height: 100vh;
            display: flex;
            align-items: center;
            justify-content: center;
            color: #fff;
        }
        .container {
            text-align: center;
            padding: 48px;
            background: rgba(255,255,255,0.05);
            border-radius: 24px;
            backdrop-filter: blur(10px);
            border: 1px solid rgba(255,255,255,0.1);
        }
        .icon {
            width: 80px;
            height: 80px;
            background: #10b981;
            border-radius: 50%;
            display: flex;
            align-items: center;
            justify-content: center;
            margin: 0 auto 24px;
            font-size: 40px;
        }
        h1 { font-size: 24px; margin-bottom: 12px; font-weight: 600; }
        p { color: rgba(255,255,255,0.7); font-size: 14px; }
    </style>
</head>
<body>
    <div class=\"container\">
        <div class=\"icon\">\u{2713}</div>
        <h1>Authentication Successful</h1>
        <p>You can close this window and return to Apigee Workbench.</p>
    </div>
</body>
</html>"@
}

/// The error page, up to the interpolated message.
pub open spec fn error_html_prefix() -> Seq<char> {
    "<!DOCTYPE html>
<html>
<head>
    <meta charset=\"utf-8\">
    <title>Authentication Failed</title>
    <style>
        * { margin: 0; padding: 0; box-sizing: border-box; }
        body {
            font-family: -apple-system, BlinkMacSystemFont, 'Segoe UI', Roboto, sans-serif;
            background: linear-gradient(135deg, #1a1a2e 0%, #16213e 100%);
            min-height: 100vh;
            display: flex;
            align-items: center;
            justify-content: center;
            color: #fff;
        }
        .container {
            text-align: center;
            padding: 48px;
            background: rgba(255,255,255,0.05);
            border-radius: 24px;
            backdrop-filter: blur(10px);
            border: 1px solid rgba(255,255,255,0.1);
        }
        .icon {
            width: 80px;
            height: 80px;
            background: #ef4444;
            border-radius: 50%;
            display: flex;
            align-items: center;
            justify-content: center;
            margin: 0 auto 24px;
            font-size: 40px;
        }
        h1 { font-size: 24px; margin-bottom: 12px; font-weight: 600; }
        p { color: rgba(255,255,255,0.7); font-size: 14px; }
        .error { color: #fca5a5; margin-top: 16px; font-family: monospace; font-size: 12px; }
    </style>
</head>
<body>
    <div class=\"container\">
        <div class=\"icon\">\u{2715}</div>
        <h1>Authentication Failed</h1>
        <p>Please close this window and try again.</p>
        <p class=\"error\">"@
}

/// The error page, after the interpolated message.
pub open spec fn error_html_suffix() -> Seq<char> {
    "</p>
    </div>
</body>
</html>"@
}

/// The page shown on a failed authorization, with the diagnostic `msg`
/// escaped and interpolated.
pub open spec fn error_html_spec(msg: Seq<char>) -> Seq<char> {
    error_html_prefix() + escape_spec(msg) + error_html_suffix()
}

/// The success page.
pub fn get_success_html() -> (r: String)
    ensures
        r@ == success_html_spec(),
{
    "<!DOCTYPE html>
<html>
<head>
    <meta charset=\"utf-8\">
    <title>Authentication Successful</title>
    <style>
        * { margin: 0; padding: 0; box-sizing: border-box; }
        body {
            font-family: -apple-system, BlinkMacSystemFont, 'Segoe UI', Roboto, sans-serif;
            background: linear-gradient(135deg, #1a1a2e 0%, #16213e 100%);
            min-height: 100vh;
            display: flex;
            align-items: center;
            justify-content: center;
            color: #fff;
        }
        .container {
            text-align: center;
            padding: 48px;
            background: rgba(255,255,255,0.05);
            border-radius: 24px;
            backdrop-filter: blur(10px);
            border: 1px solid rgba(255,255,255,0.1);
        }
        .icon {
            width: 80px;
            height: 80px;
            background: #10b981;
            border-radius: 50%;
            display: flex;
            align-items: center;
            justify-content: center;
            margin: 0 auto 24px;
            font-size: 40px;
        }
        h1 { font-size: 24px; margin-bottom: 12px; font-weight: 600; }
        p { color: rgba(255,255,255,0.7); font-size: 14px; }
    </style>
</head>
<body>
    <div class=\"container\">
        <div class=\"icon\">\u{2713}</div>
        <h1>Authentication Successful</h1>
        <p>You can close this window and return to Apigee Workbench.</p>
    </div>
</body>
</html>".to_owned()
}

/// The error page for the diagnostic `error`, which is escaped before it is
/// interpolated.
pub fn get_error_html(error: &str) -> (r: String)
    ensures
        r@ == error_html_spec(error@),
{
    let mut r: String = "<!DOCTYPE html>
<html>
<head>
    <meta charset=\"utf-8\">
    <title>Authentication Failed</title>
    <style>
        * { margin: 0; padding: 0; box-sizing: border-box; }
        body {
            font-family: -apple-system, BlinkMacSystemFont, 'Segoe UI', Roboto, sans-serif;
            background: linear-gradient(135deg, #1a1a2e 0%, #16213e 100%);
            min-height: 100vh;
            display: flex;
            align-items: center;
            justify-content: center;
            color: #fff;
        }
        .container {
            text-align: center;
            padding: 48px;
            background: rgba(255,255,255,0.05);
            border-radius: 24px;
            backdrop-filter: blur(10px);
            border: 1px solid rgba(255,255,255,0.1);
        }
        .icon {
            width: 80px;
            height: 80px;
            background: #ef4444;
            border-radius: 50%;
            display: flex;
            align-items: center;
            justify-content: center;
            margin: 0 auto 24px;
            font-size: 40px;
        }
        h1 { font-size: 24px; margin-bottom: 12px; font-weight: 600; }
        p { color: rgba(255,255,255,0.7); font-size: 14px; }
        .error { color: #fca5a5; margin-top: 16px; font-family: monospace; font-size: 12px; }
    </style>
</head>
<body>
    <div class=\"container\">
        <div class=\"icon\">\u{2715}</div>
        <h1>Authentication Failed</h1>
        <p>Please close this window and try again.</p>
        <p class=\"error\">".to_owned();
    let escaped: String = html_escape(error);
    r.append(escaped.as_str());
    r.append(
        "</p>
    </div>
</body>
</html>",
    );
    r
}

} // verus!
