//! Responses of the capture service, as plain values.
use vstd::prelude::*;
use vstd::string::*;

verus! {

/// Status page: an image of the display, reloaded every second with a
/// cache-busting query.
pub const INDEX_PAGE: &'static str = r#"
        <!DOCTYPE html>
        <html>
        <head>
            <style>
                body, html { margin: 0; padding: 0; height: 100%; overflow: hidden; }
                #gameImage { max-width: 100%; max-height: 100%; object-fit: contain; }
            </style>
        </head>
        <body>
            <img id="gameImage" src="/screenshot" alt="Game Screenshot">
            <script>
                setInterval(() => {
                    document.getElementById('gameImage').src = '/screenshot?' + new Date().getTime();
                }, 1000); // Refresh every second
            </script>
        </body>
        </html>
    "#;

pub const STATUS_OK: u16 = 200;

pub const STATUS_SERVER_ERROR: u16 = 500;

pub const HTML: &'static str = "text/html";

pub const PNG: &'static str = "image/png";

pub const PLAIN_TEXT: &'static str = "text/plain";

/// An HTTP response: status code, content type and body bytes.
#[derive(Debug)]
pub struct Response {
    pub status: u16,
    pub content_type: &'static str,
    pub body: Vec<u8>,
}

/// `GET /`: the status page, whatever the state of the supervised process.
pub fn index() -> (r: Response)
    ensures
        r.status == STATUS_OK,
        r.content_type@ == HTML@,
        r.body@ == INDEX_PAGE.spec_bytes(),
{
    Response { status: STATUS_OK, content_type: HTML, body: INDEX_PAGE.as_bytes_vec() }
}

} // verus!
