//! The pages of the web interface: their markup, and the form that asks for an action.

use crate::settings::app_settings::Action;
use vstd::prelude::*;
use vstd::string::*;

verus! {

/// The markup of a whole page.
pub open spec fn html_text(title: Seq<char>, head_extra: Seq<char>, body: Seq<char>) -> Seq<char> {
    "<!DOCTYPE html>\n<html>\n <head>\n  <meta charset='utf-8'/>\n  <meta http-equiv='X-UA-Compatible' content='IE=edge'/>\n  <meta name='viewport' content='height=device-height, width=device-width, initial-scale=1'/>\n  "@
        + head_extra + "\n  <title>"@ + title + "</title>\n </head>\n <body>\n "@ + body
        + "\n </body>\n</html>"@
}

/// Builds a whole page from what differs between pages: the title, what else
/// goes into the head, and the body.
pub fn html_construct(title: &str, head_extra: &str, body: &str) -> (r: String)
    ensures
        r@ == html_text(title@, head_extra@, body@),
{
    let mut page = String::from_str(
        "<!DOCTYPE html>\n<html>\n <head>\n  <meta charset='utf-8'/>\n  <meta http-equiv='X-UA-Compatible' content='IE=edge'/>\n  <meta name='viewport' content='height=device-height, width=device-width, initial-scale=1'/>\n  ",
    );
    page.append(head_extra);
    page.append("\n  <title>");
    page.append(title);
    page.append("</title>\n </head>\n <body>\n ");
    page.append(body);
    page.append("\n </body>\n</html>");
    page
}

/// The markup of a titled box, its content kept as it is written where `pre` is set.
pub open spec fn fieldset_text(title: Seq<char>, content: Seq<char>, pre: bool) -> Seq<char> {
    "<fieldset><legend>"@ + title + "</legend>"@ + (if pre {
        "<pre>"@
    } else {
        ""@
    }) + content + (if pre {
        "</pre>"@
    } else {
        ""@
    }) + "</fieldset>"@
}

/// Builds a titled box around `content`.
pub fn fieldset(title: &str, content: &str, pre: bool) -> (r: String)
    ensures
        r@ == fieldset_text(title@, content@, pre),
{
    let pre_open = if pre {
        "<pre>"
    } else {
        ""
    };
    let pre_close = if pre {
        "</pre>"
    } else {
        ""
    };
    let mut text = String::from_str("<fieldset><legend>");
    text.append(title);
    text.append("</legend>");
    text.append(pre_open);
    text.append(content);
    text.append(pre_close);
    text.append("</fieldset>");
    text
}

/// What the form of the main page sends: the action asked for, and the
/// source to act on, which is empty for all of them.
#[derive(Debug, Clone)]
pub struct ActionRequest {
    pub action: String,
    pub active_source: String,
}

impl ActionRequest {
    /// The action that the request asks for: the one that it names is
    /// switched on, on the source that it names; a name that is none of the
    /// actions' switches nothing on.
    pub fn to_action(&self) -> (r: Action)
        ensures
            r.sync == (self.action@ == "sync"@),
            r.mysql_dump == (self.action@ == "mysql_dump"@),
            r.upload_dropbox == (self.action@ == "upload_dropbox"@),
            r.upload_gdrive == (self.action@ == "upload_gdrive"@),
            r.export == (self.action@ == "export"@),
            r.unexport == (self.action@ == "unexport"@),
            !r.auth_dropbox,
            r.source@ == self.active_source@,
    {
        Action {
            sync: self.action == String::from_str("sync"),
            mysql_dump: self.action == String::from_str("mysql_dump"),
            upload_dropbox: self.action == String::from_str("upload_dropbox"),
            auth_dropbox: false,
            upload_gdrive: self.action == String::from_str("upload_gdrive"),
            source: self.active_source.clone(),
            export: self.action == String::from_str("export"),
            unexport: self.action == String::from_str("unexport"),
        }
    }
}

} // verus!
