use gateway::pages::{consent_page, esc, hidden_fields, login_page, AuthzParams, PAGE_CSS};

fn params() -> AuthzParams {
    AuthzParams {
        response_type: "code".to_string(),
        client_id: "web".to_string(),
        redirect_uri: "https://app/cb?x=1&y=2".to_string(),
        scope: "openid  <b>".to_string(),
        state: "s\"1".to_string(),
        code_challenge: "ch".to_string(),
        code_challenge_method: "S256".to_string(),
        nonce: "n".to_string(),
    }
}

fn replaced(s: &str) -> String {
    s.replace('&', "&amp;").replace('<', "&lt;").replace('>', "&gt;").replace('"', "&quot;")
}

const HIDDEN: &str = "<input type=\"hidden\" name=\"response_type\" value=\"code\">\
     <input type=\"hidden\" name=\"client_id\" value=\"web\">\
     <input type=\"hidden\" name=\"redirect_uri\" value=\"https://app/cb?x=1&amp;y=2\">\
     <input type=\"hidden\" name=\"scope\" value=\"openid  &lt;b&gt;\">\
     <input type=\"hidden\" name=\"state\" value=\"s&quot;1\">\
     <input type=\"hidden\" name=\"code_challenge\" value=\"ch\">\
     <input type=\"hidden\" name=\"code_challenge_method\" value=\"S256\">\
     <input type=\"hidden\" name=\"nonce\" value=\"n\">";

#[test]
fn markup_is_escaped() {
    assert_eq!(esc("a<b>&\"c\"'"), "a&lt;b&gt;&amp;&quot;c&quot;'");
    assert_eq!(esc(""), "");
    assert_eq!(esc("&amp;"), "&amp;amp;");
    for s in ["<script>", "é·🔐", "a&lt;b", "\"\"", "plain"] {
        assert_eq!(esc(s), replaced(s));
    }
}

#[test]
fn escaped_text_is_inert() {
    let text = esc("<img src=\"x\" onerror=\"y\">&");
    assert!(!text.contains('<') && !text.contains('>') && !text.contains('"'));
}

#[test]
fn escaping_tells_different_texts_apart() {
    let samples = ["<", "&lt;", "&", "&amp;", ";", "a", ""];
    for a in samples {
        for b in samples {
            assert_eq!(esc(a) == esc(b), a == b);
        }
    }
}

#[test]
fn the_parameters_travel_in_hidden_fields() {
    assert_eq!(hidden_fields(&params()), HIDDEN);
}

#[test]
fn the_login_page_is_complete() {
    let expected = format!(
        r#"<!doctype html><html><head><meta charset="utf-8"><title>Sign in · IAM</title>{css}</head><body>
<form class="card" method="post" action="/authorize/login">
<h1>🔐 Sign in to IAM</h1><p>An application is requesting access to your account.</p>{err}
<label>Email</label><input type="email" name="email" required autofocus>
<label>Password</label><input type="password" name="password" required>
{hidden}<button type="submit">Sign in</button></form></body></html>"#,
        css = PAGE_CSS,
        err = "",
        hidden = HIDDEN,
    );
    assert_eq!(login_page(&params(), ""), expected);
}

#[test]
fn the_login_page_shows_an_error() {
    let page = login_page(&params(), "no <b>");
    assert!(page.contains("</p><div class=\"err\">no &lt;b&gt;</div>\n<label>Email</label>"));
}

#[test]
fn the_consent_page_is_complete() {
    let expected = format!(
        r#"<!doctype html><html><head><meta charset="utf-8"><title>Authorize · IAM</title>{css}</head><body>
<form class="card" method="post" action="/authorize/consent">
<h1>Authorize {name}</h1><p>This application wants access to:</p>
<ul class="scopes">{items}</ul>{hidden}
<div class="row"><button class="ghost" type="submit" name="action" value="deny">Deny</button>
<button type="submit" name="action" value="allow">Allow</button></div></form></body></html>"#,
        css = PAGE_CSS,
        name = "A &amp; B",
        items = "<li>openid</li><li>&lt;b&gt;</li>",
        hidden = HIDDEN,
    );
    assert_eq!(consent_page(&params(), "A & B"), expected);
}

#[test]
fn the_style_is_complete() {
    let expected = r#"<style>body{font-family:system-ui,sans-serif;background:#0f172a;color:#e2e8f0;display:flex;min-height:100vh;align-items:center;justify-content:center;margin:0}
.card{background:#1e293b;padding:2rem 2.25rem;border-radius:14px;width:340px;box-shadow:0 10px 40px rgba(0,0,0,.4)}
h1{font-size:1.15rem;margin:0 0 .25rem}p{color:#94a3b8;font-size:.85rem;margin:.25rem 0 1.25rem}
label{display:block;font-size:.8rem;margin:.6rem 0 .2rem;color:#cbd5e1}
input[type=email],input[type=password]{width:100%;padding:.6rem .7rem;border:1px solid #334155;border-radius:8px;background:#0f172a;color:#e2e8f0;box-sizing:border-box}
button{margin-top:1.1rem;width:100%;padding:.65rem;border:0;border-radius:8px;background:#6366f1;color:#fff;font-weight:600;cursor:pointer}
button.ghost{background:#334155}.row{display:flex;gap:.6rem}.err{color:#f87171;font-size:.8rem;margin:.4rem 0}
.scopes{list-style:none;padding:0;margin:.5rem 0}.scopes li{padding:.35rem 0;border-bottom:1px solid #334155;font-size:.9rem}</style>"#;
    assert_eq!(PAGE_CSS, expected);
}
