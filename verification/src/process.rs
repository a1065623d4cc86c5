//! The command line of the OpenVPN program.

use crate::net::{RemoteAddr, RemoteAddrView};
use vstd::prelude::*;
use vstd::string::StringExecFns;

verus! {

/// The character that stands for `digit` in decimal notation.
pub open spec fn digit_char(digit: nat) -> char {
    if digit == 0 {
        '0'
    } else if digit == 1 {
        '1'
    } else if digit == 2 {
        '2'
    } else if digit == 3 {
        '3'
    } else if digit == 4 {
        '4'
    } else if digit == 5 {
        '5'
    } else if digit == 6 {
        '6'
    } else if digit == 7 {
        '7'
    } else if digit == 8 {
        '8'
    } else {
        '9'
    }
}

/// The decimal notation of `number`, without leading zeros.
pub open spec fn decimal(number: nat) -> Seq<char>
    decreases number,
{
    if number < 10 {
        seq![digit_char(number)]
    } else {
        decimal(number / 10).push(digit_char(number % 10))
    }
}

/// The one-character string that stands for `digit`.
fn digit_text(digit: u16) -> (res: &'static str)
    requires
        digit < 10,
    ensures
        res@ == seq![digit_char(digit as nat)],
{
    proof {
        reveal_strlit("0");
        reveal_strlit("1");
        reveal_strlit("2");
        reveal_strlit("3");
        reveal_strlit("4");
        reveal_strlit("5");
        reveal_strlit("6");
        reveal_strlit("7");
        reveal_strlit("8");
        reveal_strlit("9");
    }
    let text = if digit == 0 {
        "0"
    } else if digit == 1 {
        "1"
    } else if digit == 2 {
        "2"
    } else if digit == 3 {
        "3"
    } else if digit == 4 {
        "4"
    } else if digit == 5 {
        "5"
    } else if digit == 6 {
        "6"
    } else if digit == 7 {
        "7"
    } else if digit == 8 {
        "8"
    } else {
        "9"
    };
    assert(text@ =~= seq![digit_char(digit as nat)]);
    text
}

/// Writes `number` in decimal notation.
pub fn decimal_text(number: u16) -> (res: String)
    ensures
        res@ == decimal(number as nat),
    decreases number,
{
    if number < 10 {
        String::from_str(digit_text(number))
    } else {
        let text = decimal_text(number / 10).concat(digit_text(number % 10));
        assert(text@ =~= decimal(number as nat));
        text
    }
}

/// The characters of each string of `texts`.
pub open spec fn texts(strings: Seq<String>) -> Seq<Seq<char>> {
    strings.map_values(|text: String| text@)
}

/// The arguments that name the remotes: for each one, in order, the option
/// `--remote`, the host and the port in decimal notation.
pub open spec fn remote_arguments(remotes: Seq<RemoteAddrView>) -> Seq<Seq<char>>
    decreases remotes.len(),
{
    if remotes.len() == 0 {
        Seq::empty()
    } else {
        remote_arguments(remotes.drop_last()) + seq![
            "--remote"@,
            remotes.last().address,
            decimal(remotes.last().port as nat),
        ]
    }
}

/// An OpenVPN process builder, providing control over the different arguments that the OpenVPN
/// binary accepts.
#[derive(Clone, Debug, PartialEq, Eq)]
pub struct OpenVpnBuilder {
    openvpn_bin: String,
    config: Option<String>,
    remotes: Vec<RemoteAddr>,
}

/// An [`OpenVpnBuilder`] as a mathematical value.
pub struct OpenVpnBuilderView {
    pub openvpn_bin: Seq<char>,
    pub config: Option<Seq<char>>,
    pub remotes: Seq<RemoteAddrView>,
}

impl OpenVpnBuilderView {
    /// The arguments that the program is started with: the configuration
    /// file, if one is set, then the remotes.
    pub open spec fn arguments(self) -> Seq<Seq<char>> {
        (match self.config {
            Some(path) => seq!["--config"@, path],
            None => Seq::empty(),
        }) + remote_arguments(self.remotes)
    }
}

impl View for OpenVpnBuilder {
    type V = OpenVpnBuilderView;

    closed spec fn view(&self) -> OpenVpnBuilderView {
        OpenVpnBuilderView {
            openvpn_bin: self.openvpn_bin@,
            config: match self.config {
                Some(path) => Some(path@),
                None => None,
            },
            remotes: self.remotes@.map_values(|remote: RemoteAddr| remote@),
        }
    }
}

impl OpenVpnBuilder {
    /// Constructs a new `OpenVpnBuilder` for launching OpenVPN processes from the binary at
    /// `openvpn_bin`.
    pub fn new(openvpn_bin: &str) -> (res: OpenVpnBuilder)
        ensures
            res@ == (OpenVpnBuilderView {
                openvpn_bin: openvpn_bin@,
                config: None,
                remotes: Seq::empty(),
            }),
    {
        let builder = OpenVpnBuilder {
            openvpn_bin: String::from_str(openvpn_bin),
            config: None,
            remotes: Vec::new(),
        };
        assert(builder@.remotes =~= Seq::empty());
        builder
    }

    /// The program that is launched.
    pub fn openvpn_bin(&self) -> (res: &str)
        ensures
            res@ == self@.openvpn_bin,
    {
        self.openvpn_bin.as_str()
    }

    /// Sets what configuration file will be given to OpenVPN
    pub fn config(&mut self, path: &str) -> (res: &mut OpenVpnBuilder)
        ensures
            res@ == (OpenVpnBuilderView { config: Some(path@), ..old(self)@ }),
            *final(self) == *final(res),
    {
        self.config = Some(String::from_str(path));
        self
    }

    /// Sets the addresses that OpenVPN will connect to. See OpenVPN documentation for how multiple
    /// remotes are handled.
    pub fn remotes(&mut self, remotes: Vec<RemoteAddr>) -> (res: &mut OpenVpnBuilder)
        ensures
            res@ == (OpenVpnBuilderView {
                remotes: remotes@.map_values(|remote: RemoteAddr| remote@),
                ..old(self)@
            }),
            *final(self) == *final(res),
    {
        self.remotes = remotes;
        self
    }

    /// Returns all arguments that the subprocess would be spawned with.
    pub fn get_arguments(&self) -> (res: Vec<String>)
        ensures
            texts(res@) == self@.arguments(),
    {
        let mut args: Vec<String> = Vec::new();
        if let Some(config) = &self.config {
            args.push(String::from_str("--config"));
            args.push(config.clone());
        }
        let ghost head = texts(args@);
        assert(head =~= match self@.config {
            Some(path) => seq!["--config"@, path],
            None => Seq::empty(),
        });
        let mut i: usize = 0;
        while i < self.remotes.len()
            invariant
                i <= self.remotes.len(),
                texts(args@) == head + remote_arguments(self@.remotes.take(i as int)),
            decreases self.remotes.len() - i,
        {
            let remote = &self.remotes[i];
            let ghost before = args@;
            args.push(String::from_str("--remote"));
            args.push(String::from_str(remote.address()));
            args.push(decimal_text(remote.port()));
            proof {
                let taken = self@.remotes.take(i + 1);
                assert(taken.drop_last() =~= self@.remotes.take(i as int));
                assert(taken.last() == remote@);
                assert(texts(args@) =~= texts(before) + seq![
                    "--remote"@,
                    remote@.address,
                    decimal(remote@.port as nat),
                ]);
            }
            i += 1;
        }
        assert(self@.remotes.take(i as int) =~= self@.remotes);
        args
    }
}

} // verus!
