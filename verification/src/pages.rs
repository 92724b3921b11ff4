//! The pages of the browser flow: sign-in and consent.

use vstd::prelude::*;
use vstd::string::*;

use crate::text::{chars, split_words, texts, words};

verus! {

/// The style of every page.
pub const PAGE_CSS: &'static str = "<style>body{font-family:system-ui,sans-serif;background:#0f172a;color:#e2e8f0;display:flex;min-height:100vh;align-items:center;justify-content:center;margin:0}\n.card{background:#1e293b;padding:2rem 2.25rem;border-radius:14px;width:340px;box-shadow:0 10px 40px rgba(0,0,0,.4)}\nh1{font-size:1.15rem;margin:0 0 .25rem}p{color:#94a3b8;font-size:.85rem;margin:.25rem 0 1.25rem}\nlabel{display:block;font-size:.8rem;margin:.6rem 0 .2rem;color:#cbd5e1}\ninput[type=email],input[type=password]{width:100%;padding:.6rem .7rem;border:1px solid #334155;border-radius:8px;background:#0f172a;color:#e2e8f0;box-sizing:border-box}\nbutton{margin-top:1.1rem;width:100%;padding:.65rem;border:0;border-radius:8px;background:#6366f1;color:#fff;font-weight:600;cursor:pointer}\nbutton.ghost{background:#334155}.row{display:flex;gap:.6rem}.err{color:#f87171;font-size:.8rem;margin:.4rem 0}\n.scopes{list-style:none;padding:0;margin:.5rem 0}.scopes li{padding:.35rem 0;border-bottom:1px solid #334155;font-size:.9rem}</style>";

/// The head of the sign-in page, up to the style.
pub const LOGIN_HEAD: &'static str = "<!doctype html><html><head><meta charset=\"utf-8\"><title>Sign in · IAM</title>";

/// The sign-in page from the style to the error.
pub const LOGIN_INTRO: &'static str = "</head><body>\n<form class=\"card\" method=\"post\" action=\"/authorize/login\">\n<h1>🔐 Sign in to IAM</h1><p>An application is requesting access to your account.</p>";

/// The sign-in page from the error to the hidden fields.
pub const LOGIN_INPUTS: &'static str = "\n<label>Email</label><input type=\"email\" name=\"email\" required autofocus>\n<label>Password</label><input type=\"password\" name=\"password\" required>\n";

/// The end of the sign-in page.
pub const LOGIN_END: &'static str = "<button type=\"submit\">Sign in</button></form></body></html>";

/// The head of the consent page, up to the style.
pub const CONSENT_HEAD: &'static str = "<!doctype html><html><head><meta charset=\"utf-8\"><title>Authorize · IAM</title>";

/// The consent page from the style to the name of the client.
pub const CONSENT_TITLE: &'static str = "</head><body>\n<form class=\"card\" method=\"post\" action=\"/authorize/consent\">\n<h1>Authorize ";

/// The consent page from the name to the scopes.
pub const CONSENT_SCOPES: &'static str = "</h1><p>This application wants access to:</p>\n<ul class=\"scopes\">";

/// What ends the list of scopes.
pub const CONSENT_LIST_END: &'static str = "</ul>";

/// The end of the consent page.
pub const CONSENT_END: &'static str = "\n<div class=\"row\"><button class=\"ghost\" type=\"submit\" name=\"action\" value=\"deny\">Deny</button>\n<button type=\"submit\" name=\"action\" value=\"allow\">Allow</button></div></form></body></html>";

/// What stands for a character in HTML text and in quoted attributes.
pub open spec fn escaped_char(c: char) -> Seq<char> {
    if c == '&' {
        "&amp;"@
    } else if c == '<' {
        "&lt;"@
    } else if c == '>' {
        "&gt;"@
    } else if c == '"' {
        "&quot;"@
    } else {
        seq![c]
    }
}

/// A text with its markup characters written as entities.
pub open spec fn escaped(s: Seq<char>) -> Seq<char>
    decreases s.len(),
{
    if s.len() == 0 {
        Seq::empty()
    } else {
        escaped(s.drop_last()) + escaped_char(s.last())
    }
}

/// Writes markup characters as entities.
pub fn esc(s: &str) -> (r: String)
    ensures
        r@ == escaped(s@),
{
    let cs = chars(s);
    let mut r = String::new();
    let mut i: usize = 0;
    while i < cs.len()
        invariant
            cs@ == s@,
            i <= cs@.len(),
            r@ == escaped(s@.take(i as int)),
        decreases cs@.len() - i,
    {
        let c = cs[i];
        let ghost before = r@;
        if c == '&' {
            r.append("&amp;");
        } else if c == '<' {
            r.append("&lt;");
        } else if c == '>' {
            r.append("&gt;");
        } else if c == '"' {
            r.append("&quot;");
        } else {
            r.push(c);
        }
        proof {
            assert(r@ =~= before + escaped_char(c));
            let next = s@.take(i + 1);
            assert(next.drop_last() =~= s@.take(i as int));
            assert(next.last() == c);
        }
        i = i + 1;
    }
    assert(s@.take(s@.len() as int) =~= s@);
    r
}

/// The parameters of an authorization request.
pub struct AuthzParams {
    pub response_type: String,
    pub client_id: String,
    pub redirect_uri: String,
    pub scope: String,
    pub state: String,
    pub code_challenge: String,
    pub code_challenge_method: String,
    pub nonce: String,
}

/// A hidden form field.
pub open spec fn hidden_field_text(name: Seq<char>, value: Seq<char>) -> Seq<char> {
    "<input type=\"hidden\" name=\""@ + name + "\" value=\""@ + escaped(value) + "\">"@
}

/// Writes a hidden form field.
fn hidden_field(name: &str, value: &str) -> (r: String)
    ensures
        r@ == hidden_field_text(name@, value@),
{
    let mut r = "<input type=\"hidden\" name=\"".to_owned();
    r.append(name);
    r.append("\" value=\"");
    let e = esc(value);
    r.append(e.as_str());
    r.append("\">");
    r
}

/// The hidden fields that carry the parameters from one form to the next.
pub open spec fn hidden_fields_text(p: AuthzParams) -> Seq<char> {
    hidden_field_text("response_type"@, p.response_type@) + hidden_field_text(
        "client_id"@,
        p.client_id@,
    ) + hidden_field_text("redirect_uri"@, p.redirect_uri@) + hidden_field_text("scope"@, p.scope@)
        + hidden_field_text("state"@, p.state@) + hidden_field_text(
        "code_challenge"@,
        p.code_challenge@,
    ) + hidden_field_text("code_challenge_method"@, p.code_challenge_method@) + hidden_field_text(
        "nonce"@,
        p.nonce@,
    )
}

/// Writes the hidden fields.
pub fn hidden_fields(p: &AuthzParams) -> (r: String)
    ensures
        r@ == hidden_fields_text(*p),
{
    let mut r = hidden_field("response_type", p.response_type.as_str());
    r.append(hidden_field("client_id", p.client_id.as_str()).as_str());
    r.append(hidden_field("redirect_uri", p.redirect_uri.as_str()).as_str());
    r.append(hidden_field("scope", p.scope.as_str()).as_str());
    r.append(hidden_field("state", p.state.as_str()).as_str());
    r.append(hidden_field("code_challenge", p.code_challenge.as_str()).as_str());
    r.append(hidden_field("code_challenge_method", p.code_challenge_method.as_str()).as_str());
    r.append(hidden_field("nonce", p.nonce.as_str()).as_str());
    r
}

/// The error line of the sign-in page; nothing where there is no error.
pub open spec fn error_line(err: Seq<char>) -> Seq<char> {
    if err.len() == 0 {
        Seq::empty()
    } else {
        "<div class=\"err\">"@ + escaped(err) + "</div>"@
    }
}

/// The sign-in page.
pub open spec fn login_page_text(p: AuthzParams, err: Seq<char>) -> Seq<char> {
    LOGIN_HEAD@ + PAGE_CSS@ + LOGIN_INTRO@ + error_line(err) + LOGIN_INPUTS@ + hidden_fields_text(p)
        + LOGIN_END@
}

/// Writes the sign-in page.
pub fn login_page(p: &AuthzParams, err: &str) -> (r: String)
    ensures
        r@ == login_page_text(*p, err@),
{
    let mut r = LOGIN_HEAD.to_owned();
    r.append(PAGE_CSS);
    r.append(LOGIN_INTRO);
    if !err.is_empty() {
        r.append("<div class=\"err\">");
        r.append(esc(err).as_str());
        r.append("</div>");
    }
    proof {
        assert(r@ =~= LOGIN_HEAD@ + PAGE_CSS@ + LOGIN_INTRO@ + error_line(err@));
    }
    r.append(LOGIN_INPUTS);
    r.append(hidden_fields(p).as_str());
    r.append(LOGIN_END);
    r
}

/// The list items for some scopes.
pub open spec fn scope_items(scopes: Seq<Seq<char>>) -> Seq<char>
    decreases scopes.len(),
{
    if scopes.len() == 0 {
        Seq::empty()
    } else {
        scope_items(scopes.drop_last()) + "<li>"@ + escaped(scopes.last()) + "</li>"@
    }
}

/// The consent page.
pub open spec fn consent_page_text(p: AuthzParams, client_name: Seq<char>) -> Seq<char> {
    CONSENT_HEAD@ + PAGE_CSS@ + CONSENT_TITLE@ + escaped(client_name) + CONSENT_SCOPES@
        + scope_items(words(p.scope@)) + CONSENT_LIST_END@ + hidden_fields_text(p) + CONSENT_END@
}

/// Writes the list items for some scopes.
fn scope_list(scopes: &Vec<String>) -> (r: String)
    ensures
        r@ == scope_items(texts(scopes@)),
{
    let mut r = String::new();
    let ghost all = texts(scopes@);
    let mut i: usize = 0;
    while i < scopes.len()
        invariant
            i <= scopes@.len(),
            all == texts(scopes@),
            r@ == scope_items(all.take(i as int)),
        decreases scopes@.len() - i,
    {
        r.append("<li>");
        r.append(esc(scopes[i].as_str()).as_str());
        r.append("</li>");
        proof {
            let next = all.take(i + 1);
            assert(next.drop_last() =~= all.take(i as int));
            assert(next.last() == scopes@[i as int]@);
        }
        i = i + 1;
    }
    assert(all.take(scopes@.len() as int) =~= all);
    r
}

/// Writes the consent page.
pub fn consent_page(p: &AuthzParams, client_name: &str) -> (r: String)
    ensures
        r@ == consent_page_text(*p, client_name@),
{
    let mut r = CONSENT_HEAD.to_owned();
    r.append(PAGE_CSS);
    r.append(CONSENT_TITLE);
    r.append(esc(client_name).as_str());
    r.append(CONSENT_SCOPES);
    let scopes = split_words(p.scope.as_str());
    r.append(scope_list(&scopes).as_str());
    r.append(CONSENT_LIST_END);
    r.append(hidden_fields(p).as_str());
    r.append(CONSENT_END);
    r
}

/// What is escaped starts with its first character.
proof fn lemma_escaped_first(s: Seq<char>)
    requires
        s.len() > 0,
    ensures
        escaped(s) == escaped_char(s[0]) + escaped(s.skip(1)),
    decreases s.len(),
{
    if s.len() == 1 {
        assert(s.drop_last() =~= Seq::empty());
        assert(s.skip(1) =~= Seq::empty());
        assert(escaped(s) =~= escaped_char(s[0]) + escaped(s.skip(1)));
    } else {
        lemma_escaped_first(s.drop_last());
        assert(s.drop_last().skip(1) =~= s.skip(1).drop_last());
        assert(escaped(s) =~= escaped_char(s[0]) + escaped(s.skip(1)));
    }
}

/// Escaped text holds no markup: it can neither open nor close a tag, nor end an attribute
/// in double quotes.
pub proof fn law_escaped_text_is_inert(s: Seq<char>)
    ensures
        !escaped(s).contains('<'),
        !escaped(s).contains('>'),
        !escaped(s).contains('"'),
    decreases s.len(),
{
    if s.len() > 0 {
        law_escaped_text_is_inert(s.drop_last());
        reveal_strlit("&amp;");
        reveal_strlit("&lt;");
        reveal_strlit("&gt;");
        reveal_strlit("&quot;");
        let front = escaped(s.drop_last());
        let back = escaped_char(s.last());
        assert forall|i: int| 0 <= i < escaped(s).len() implies {
            &&& #[trigger] escaped(s)[i] != '<'
            &&& escaped(s)[i] != '>'
            &&& escaped(s)[i] != '"'
        } by {
            if i < front.len() {
                assert(front.contains(front[i]));
            } else {
                assert(escaped(s)[i] == back[i - front.len()]);
            }
        }
    }
}

/// Escaping loses nothing: different texts look different.
pub proof fn law_escaping_loses_nothing(a: Seq<char>, b: Seq<char>)
    requires
        escaped(a) == escaped(b),
    ensures
        a == b,
    decreases a.len(),
{
    reveal_strlit("&amp;");
    reveal_strlit("&lt;");
    reveal_strlit("&gt;");
    reveal_strlit("&quot;");
    assert(forall|c: char| (#[trigger] escaped_char(c)).len() > 0);
    if a.len() > 0 {
        lemma_escaped_first(a);
    }
    if b.len() > 0 {
        lemma_escaped_first(b);
    }
    if a.len() > 0 && b.len() > 0 {
        let x = escaped_char(a[0]);
        let y = escaped_char(b[0]);
        assert(escaped(a)[0] == x[0]);
        assert(escaped(b)[0] == y[0]);
        if x[0] == '&' {
            assert(escaped(a)[1] == x[1]);
            assert(escaped(b)[1] == y[1]);
        }
        assert(a[0] == b[0]);
        assert(escaped(a.skip(1)) =~= escaped(a).skip(x.len() as int));
        assert(escaped(b.skip(1)) =~= escaped(b).skip(y.len() as int));
        law_escaping_loses_nothing(a.skip(1), b.skip(1));
        assert(a =~= seq![a[0]] + a.skip(1));
        assert(b =~= seq![b[0]] + b.skip(1));
    }
}

/// Text is escaped character by character: four characters become entities, and every other
/// one stays as it is.
pub proof fn law_escaping(a: Seq<char>, b: Seq<char>, c: char)
    ensures
        escaped(Seq::empty()) == Seq::<char>::empty(),
        escaped(a + b) == escaped(a) + escaped(b),
        escaped(seq!['&']) == "&amp;"@,
        escaped(seq!['<']) == "&lt;"@,
        escaped(seq!['>']) == "&gt;"@,
        escaped(seq!['"']) == "&quot;"@,
        c != '&' && c != '<' && c != '>' && c != '"' ==> escaped(seq![c]) == seq![c],
    decreases b.len(),
{
    if b.len() == 0 {
        assert(a + b =~= a);
        assert(escaped(a) + escaped(b) =~= escaped(a));
    } else {
        law_escaping(a, b.drop_last(), c);
        assert((a + b).drop_last() =~= a + b.drop_last());
        assert(escaped(a + b) =~= escaped(a) + escaped(b));
    }
    lemma_escaped_one('&');
    lemma_escaped_one('<');
    lemma_escaped_one('>');
    lemma_escaped_one('"');
    lemma_escaped_one(c);
}

/// One character is escaped by itself.
proof fn lemma_escaped_one(c: char)
    ensures
        escaped(seq![c]) == escaped_char(c),
{
    let s = seq![c];
    assert(s.drop_last() =~= Seq::empty());
    assert(escaped(s.drop_last()) =~= Seq::empty());
    assert(escaped(s) =~= escaped_char(c));
}

/// The parameters travel from one form to the next: each stands, escaped, in a hidden field of
/// its own name, and none is left out.
pub proof fn law_hidden_fields(p: AuthzParams)
    ensures
        ({
            let open = "<input type=\"hidden\" name=\""@;
            let value = "\" value=\""@;
            let close = "\">"@;
            hidden_fields_text(p) == (open + "response_type"@ + value + escaped(p.response_type@) + close)
                + (open + "client_id"@ + value + escaped(p.client_id@) + close)
                + (open + "redirect_uri"@ + value + escaped(p.redirect_uri@) + close)
                + (open + "scope"@ + value + escaped(p.scope@) + close)
                + (open + "state"@ + value + escaped(p.state@) + close)
                + (open + "code_challenge"@ + value + escaped(p.code_challenge@) + close)
                + (open + "code_challenge_method"@ + value + escaped(p.code_challenge_method@) + close)
                + (open + "nonce"@ + value + escaped(p.nonce@) + close)
        }),
{
}

/// The sign-in page is the same for every request but for the parameters that it carries and
/// the error that it shows, escaped, where there is one.
pub proof fn law_login_page(p: AuthzParams, err: Seq<char>)
    requires
        err.len() > 0,
    ensures
        login_page_text(p, Seq::empty()) == LOGIN_HEAD@ + PAGE_CSS@ + LOGIN_INTRO@ + LOGIN_INPUTS@
            + hidden_fields_text(p) + LOGIN_END@,
        login_page_text(p, err) == LOGIN_HEAD@ + PAGE_CSS@ + LOGIN_INTRO@ + "<div class=\"err\">"@
            + escaped(err) + "</div>"@ + LOGIN_INPUTS@ + hidden_fields_text(p) + LOGIN_END@,
{
    assert(login_page_text(p, Seq::empty()) =~= LOGIN_HEAD@ + PAGE_CSS@ + LOGIN_INTRO@
        + LOGIN_INPUTS@ + hidden_fields_text(p) + LOGIN_END@);
    assert(login_page_text(p, err) =~= LOGIN_HEAD@ + PAGE_CSS@ + LOGIN_INTRO@
        + "<div class=\"err\">"@ + escaped(err) + "</div>"@ + LOGIN_INPUTS@ + hidden_fields_text(p)
        + LOGIN_END@);
}

/// Every scope is listed, escaped and in its order.
pub proof fn law_scopes_are_all_listed(scopes: Seq<Seq<char>>, scope: Seq<char>)
    ensures
        scope_items(Seq::empty()) == Seq::<char>::empty(),
        scope_items(scopes.push(scope)) == scope_items(scopes) + "<li>"@ + escaped(scope)
            + "</li>"@,
{
    assert(scopes.push(scope).drop_last() =~= scopes);
}

/// The consent page names the client, escaped, lists every scope that is asked for, and
/// carries the parameters.
pub proof fn law_consent_page(p: AuthzParams, client_name: Seq<char>)
    ensures
        consent_page_text(p, client_name) == CONSENT_HEAD@ + PAGE_CSS@ + CONSENT_TITLE@ + escaped(
            client_name,
        ) + CONSENT_SCOPES@ + scope_items(words(p.scope@)) + CONSENT_LIST_END@
            + hidden_fields_text(p) + CONSENT_END@,
{
}

} // verus!
