//! The closed set of network variants and their constant parameters.
//!
//! Every lookup is a total, side-effect-free function of the variant tag
//! alone, so two calls with the same variant always return the same value.

use vstd::prelude::*;

verus! {

/// One of the four supported network configurations.
#[derive(Copy, Clone, Debug, PartialEq, Eq, Hash, Structural)]
pub enum Chain {
    Mainnet,
    Testnet,
    Signet,
    Regtest,
}

/// `bitcoin::Network` is a plain fieldless enum; declaring it this way lets
/// verified code construct and compare its variants directly.
#[verifier::external_type_specification]
pub struct ExNetwork(bitcoin::Network);

impl Chain {
    /// The consensus network identifier handed to the node/address library.
    pub open spec fn spec_network(self) -> bitcoin::Network {
        match self {
            Chain::Mainnet => bitcoin::Network::Bitcoin,
            Chain::Testnet => bitcoin::Network::Testnet,
            Chain::Signet => bitcoin::Network::Signet,
            Chain::Regtest => bitcoin::Network::Regtest,
        }
    }

    pub fn network(self) -> (r: bitcoin::Network)
        ensures
            r == self.spec_network(),
    {
        match self {
            Chain::Mainnet => bitcoin::Network::Bitcoin,
            Chain::Testnet => bitcoin::Network::Testnet,
            Chain::Signet => bitcoin::Network::Signet,
            Chain::Regtest => bitcoin::Network::Regtest,
        }
    }

    /// The RPC port used when the user does not override it.
    pub open spec fn spec_default_rpc_port(self) -> u16 {
        match self {
            Chain::Mainnet => 9771,
            Chain::Testnet => 19771,
            Chain::Signet => 19771,
            Chain::Regtest => 19771,
        }
    }

    pub fn default_rpc_port(self) -> (r: u16)
        ensures
            r == self.spec_default_rpc_port(),
    {
        match self {
            Chain::Mainnet => 9771,
            Chain::Regtest => 19771,
            Chain::Signet => 19771,
            Chain::Testnet => 19771,
        }
    }

    /// The byte-size cap on inscription content; currently no variant caps it.
    pub open spec fn spec_inscription_content_size_limit(self) -> Option<usize> {
        match self {
            Chain::Mainnet => None,
            Chain::Testnet => None,
            Chain::Signet => None,
            Chain::Regtest => None,
        }
    }

    pub fn inscription_content_size_limit(self) -> (r: Option<usize>)
        ensures
            r == self.spec_inscription_content_size_limit(),
    {
        match self {
            Chain::Mainnet | Chain::Regtest => None,
            Chain::Testnet | Chain::Signet => None,
        }
    }

    /// The block height before which inscriptions are not indexed.
    pub open spec fn spec_first_inscription_height(self) -> u32 {
        match self {
            Chain::Mainnet => 250000,
            Chain::Testnet => 0,
            Chain::Signet => 0,
            Chain::Regtest => 0,
        }
    }

    pub fn first_inscription_height(self) -> (r: u32)
        ensures
            r == self.spec_first_inscription_height(),
    {
        match self {
            Chain::Mainnet => 250000,
            Chain::Regtest => 0,
            Chain::Signet => 0,
            Chain::Testnet => 0,
        }
    }

    /// The block height before which the secondary ("dune") protocol is not
    /// indexed.
    pub open spec fn spec_first_dune_height(self) -> u32 {
        match self {
            Chain::Mainnet => 350000,
            Chain::Testnet => 0,
            Chain::Signet => 0,
            Chain::Regtest => 0,
        }
    }

    pub fn first_dune_height(self) -> (r: u32)
        ensures
            r == self.spec_first_dune_height(),
    {
        match self {
            Chain::Mainnet => 350000,
            Chain::Regtest => 0,
            Chain::Signet => 0,
            Chain::Testnet => 0,
        }
    }
}

impl Chain {
    /// The stable lowercase textual form of the variant.
    pub open spec fn spec_display_name(self) -> Seq<char> {
        match self {
            Chain::Mainnet => "mainnet"@,
            Chain::Testnet => "testnet"@,
            Chain::Signet => "signet"@,
            Chain::Regtest => "regtest"@,
        }
    }

    pub fn display_name(self) -> (r: String)
        ensures
            r@ == self.spec_display_name(),
    {
        match self {
            Chain::Mainnet => "mainnet".to_owned(),
            Chain::Regtest => "regtest".to_owned(),
            Chain::Signet => "signet".to_owned(),
            Chain::Testnet => "testnet".to_owned(),
        }
    }

    /// The variant a textual name denotes: each display name, and the
    /// documented short aliases of the first two variants.
    pub open spec fn spec_parse(s: Seq<char>) -> Option<Chain> {
        if s == "mainnet"@ || s == "main"@ {
            Some(Chain::Mainnet)
        } else if s == "testnet"@ || s == "test"@ {
            Some(Chain::Testnet)
        } else if s == "signet"@ {
            Some(Chain::Signet)
        } else if s == "regtest"@ {
            Some(Chain::Regtest)
        } else {
            None
        }
    }

    pub fn parse(s: &str) -> (r: Option<Chain>)
        ensures
            r == Chain::spec_parse(s@),
    {
        if str_eq(s, "mainnet") || str_eq(s, "main") {
            Some(Chain::Mainnet)
        } else if str_eq(s, "testnet") || str_eq(s, "test") {
            Some(Chain::Testnet)
        } else if str_eq(s, "signet") {
            Some(Chain::Signet)
        } else if str_eq(s, "regtest") {
            Some(Chain::Regtest)
        } else {
            None
        }
    }

    /// The path segment appended to the base data directory: empty for
    /// Mainnet, a fixed name per other variant.
    pub open spec fn spec_data_subdirectory(self) -> Seq<char> {
        match self {
            Chain::Mainnet => Seq::empty(),
            Chain::Testnet => "testnet3"@,
            Chain::Signet => "signet"@,
            Chain::Regtest => "regtest"@,
        }
    }

    /// Joining a base directory with a segment: pure path arithmetic over
    /// `/`-separated paths, never touching the filesystem.
    pub open spec fn spec_join_path(base: Seq<char>, seg: Seq<char>) -> Seq<char> {
        if base.len() == 0 {
            seg
        } else if base.last() == '/' {
            base + seg
        } else {
            base + "/"@ + seg
        }
    }

    /// The on-disk data root of the variant under a caller-supplied base
    /// directory: the base itself for Mainnet, otherwise the base joined
    /// with the variant's subdirectory.
    pub open spec fn spec_join_with_data_dir(self, base: Seq<char>) -> Seq<char> {
        match self {
            Chain::Mainnet => base,
            _ => Chain::spec_join_path(base, self.spec_data_subdirectory()),
        }
    }

    pub fn join_with_data_dir(self, data_dir: &str) -> (r: String)
        ensures
            r@ == self.spec_join_with_data_dir(data_dir@),
    {
        let seg: &str = match self {
            Chain::Mainnet => {
                return data_dir.to_owned();
            },
            Chain::Testnet => "testnet3",
            Chain::Signet => "signet",
            Chain::Regtest => "regtest",
        };
        let n: usize = data_dir.unicode_len();
        if n == 0 {
            return seg.to_owned();
        }
        let mut out = data_dir.to_owned();
        if data_dir.get_char(n - 1) != '/' {
            out.append("/");
        }
        out.append(seg);
        out
    }
}

/// No two variants share a display name.
pub proof fn lemma_display_name_injective(a: Chain, b: Chain)
    requires
        a.spec_display_name() == b.spec_display_name(),
    ensures
        a == b,
{
    lemma_names_distinct();
}

/// Parsing a variant's display name yields that variant back.
pub proof fn lemma_parse_display_name(c: Chain)
    ensures
        Chain::spec_parse(c.spec_display_name()) == Some(c),
{
    lemma_names_distinct();
}

/// The documented short aliases parse to the variants they abbreviate.
pub proof fn lemma_parse_aliases()
    ensures
        Chain::spec_parse("main"@) == Some(Chain::Mainnet),
        Chain::spec_parse("test"@) == Some(Chain::Testnet),
{
    lemma_names_distinct();
}

/// Every constant lookup is a function of the variant alone, with no hidden
/// state: two results of the same lookup on the same variant are
/// bit-identical.
pub proof fn lemma_lookups_deterministic(
    c: Chain,
    n1: bitcoin::Network,
    n2: bitcoin::Network,
    p1: u16,
    p2: u16,
    l1: Option<usize>,
    l2: Option<usize>,
    h1: u32,
    h2: u32,
    d1: u32,
    d2: u32,
    s1: Seq<char>,
    s2: Seq<char>,
)
    requires
        n1 == c.spec_network(),
        n2 == c.spec_network(),
        p1 == c.spec_default_rpc_port(),
        p2 == c.spec_default_rpc_port(),
        l1 == c.spec_inscription_content_size_limit(),
        l2 == c.spec_inscription_content_size_limit(),
        h1 == c.spec_first_inscription_height(),
        h2 == c.spec_first_inscription_height(),
        d1 == c.spec_first_dune_height(),
        d2 == c.spec_first_dune_height(),
        s1 == c.spec_display_name(),
        s2 == c.spec_display_name(),
    ensures
        n1 == n2,
        p1 == p2,
        l1 == l2,
        h1 == h2,
        d1 == d2,
        s1 == s2,
{
}

/// The six recognized names are pairwise distinct character sequences: they
/// differ in length or in their first character.
proof fn lemma_names_distinct()
    ensures
        "mainnet"@ != "testnet"@,
        "mainnet"@ != "signet"@,
        "mainnet"@ != "regtest"@,
        "mainnet"@ != "main"@,
        "mainnet"@ != "test"@,
        "testnet"@ != "signet"@,
        "testnet"@ != "regtest"@,
        "testnet"@ != "main"@,
        "testnet"@ != "test"@,
        "signet"@ != "regtest"@,
        "signet"@ != "main"@,
        "signet"@ != "test"@,
        "regtest"@ != "main"@,
        "regtest"@ != "test"@,
        "main"@ != "test"@,
{
    reveal_strlit("mainnet");
    reveal_strlit("main");
    reveal_strlit("testnet");
    reveal_strlit("test");
    reveal_strlit("signet");
    reveal_strlit("regtest");
    assert("mainnet"@.len() == 7);
    assert("testnet"@.len() == 7);
    assert("signet"@.len() == 6);
    assert("regtest"@.len() == 7);
    assert("main"@.len() == 4);
    assert("test"@.len() == 4);
    assert("mainnet"@[0] == 'm');
    assert("testnet"@[0] == 't');
    assert("regtest"@[0] == 'r');
    assert("main"@[0] == 'm');
    assert("test"@[0] == 't');
}

/// Whether two string slices hold the same characters.
fn str_eq(a: &str, b: &str) -> (r: bool)
    ensures
        r == (a@ == b@),
{
    let x: String = a.to_owned();
    let y: String = b.to_owned();
    x == y
}

impl Default for Chain {
    /// Mainnet is the default variant.
    fn default() -> (r: Self)
        ensures
            r == Chain::Mainnet,
    {
        Chain::Mainnet
    }
}

} // verus!
