//! Server configuration.

use vstd::prelude::*;

verus! {

/// Port the server listens on unless configured otherwise.
pub const DEFAULT_PORT: u16 = 21988;

/// Configuration for the screenshot server.
#[derive(Debug, Clone)]
pub struct Config {
    /// Host to bind to. Default: `127.0.0.1`
    pub host: String,
    /// Port to listen on. Default: `21988`
    pub port: u16,
    /// Name of the webview window to capture. Default: `main`
    pub window_label: String,
}

/// The character that writes the digit `d`.
pub open spec fn digit_char(d: nat) -> char {
    if d == 0 {
        '0'
    } else if d == 1 {
        '1'
    } else if d == 2 {
        '2'
    } else if d == 3 {
        '3'
    } else if d == 4 {
        '4'
    } else if d == 5 {
        '5'
    } else if d == 6 {
        '6'
    } else if d == 7 {
        '7'
    } else if d == 8 {
        '8'
    } else {
        '9'
    }
}

/// `n` written in decimal, without leading zeros.
pub open spec fn decimal_text(n: nat) -> Seq<char>
    decreases n,
{
    if n < 10 {
        seq![digit_char(n)]
    } else {
        decimal_text(n / 10).push(digit_char(n % 10))
    }
}

/// The address of a server on `host` and `port`: the host, a colon, and the
/// port in decimal.
pub open spec fn address_text(host: Seq<char>, port: u16) -> Seq<char> {
    host + seq![':'] + decimal_text(port as nat)
}

/// The digit `d` as text.
fn digit_text(d: u16) -> (text: &'static str)
    requires
        d < 10,
    ensures
        text@ == seq![digit_char(d as nat)],
{
    proof {
        reveal_strlit("0");
        reveal_strlit("1");
        reveal_strlit("2");
        reveal_strlit("3");
        reveal_strlit("4");
        reveal_strlit("5");
        reveal_strlit("6");
        reveal_strlit("7");
        reveal_strlit("8");
        reveal_strlit("9");
    }
    let text = if d == 0 {
        "0"
    } else if d == 1 {
        "1"
    } else if d == 2 {
        "2"
    } else if d == 3 {
        "3"
    } else if d == 4 {
        "4"
    } else if d == 5 {
        "5"
    } else if d == 6 {
        "6"
    } else if d == 7 {
        "7"
    } else if d == 8 {
        "8"
    } else {
        "9"
    };
    assert(text@ =~= seq![digit_char(d as nat)]);
    text
}

/// Appends `n`, written in decimal, to `text`.
fn push_decimal(text: &mut String, n: u16)
    ensures
        final(text)@ == old(text)@ + decimal_text(n as nat),
    decreases n,
{
    if n >= 10 {
        push_decimal(text, n / 10);
    }
    text.append(digit_text(n % 10));
    assert(text@ =~= old(text)@ + decimal_text(n as nat));
}

impl Default for Config {
    /// The server on `127.0.0.1:21988` that captures the window `main`.
    fn default() -> (config: Self)
        ensures
            config.host@ == "127.0.0.1"@,
            config.port == DEFAULT_PORT,
            config.window_label@ == "main"@,
    {
        Config {
            host: String::from_str("127.0.0.1"),
            port: DEFAULT_PORT,
            window_label: String::from_str("main"),
        }
    }
}

impl Config {
    /// The address the server listens on.
    pub fn bind_address(&self) -> (address: String)
        ensures
            address@ == address_text(self.host@, self.port),
    {
        proof {
            reveal_strlit(":");
        }
        let mut address = self.host.clone();
        address.append(":");
        assert(address@ =~= self.host@ + seq![':']);
        push_decimal(&mut address, self.port);
        address
    }
}

} // verus!
