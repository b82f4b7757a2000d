//! The boards this library knows, and their names.

use vstd::prelude::*;

verus! {

/// A board supported by the native pin-mapping library.
#[derive(Clone, Copy, PartialEq, Eq, Structural, Debug)]
pub enum Platform {
    Odriodc1,
    Odriodc2,
    Odriodxu4,

    BananaPi1,
    BananaPim2,

    Pcduino1,

    MilkVDuo,
    MilkVDuo256M,
    MilkVDuoS,

    Rock4,
    Rock5b,

    RaspberryPi1b1,
    RaspberryPi1b2,
    RaspberryPi1bPlus,
    RaspberryPi2,
    RaspberryPi3,
    RaspberryPi4,
    RaspberryPiZero,

    HummingboardBasedq,
    HummingboardProdq,
    HummingboardBasesdl,
    HummingboardProsdl,
    HummingboardGatedq,
    HummingboardEdgedq,
    HummingboardGatesdl,
    HummingboardEdgesdl,

    OrangePiPC2,
    OrangePiPCPlus,
}

/// What `str::to_lowercase` makes of a string.
pub uninterp spec fn lower_of(s: Seq<char>) -> Seq<char>;

/// The board that a lower-case token names, if any.
pub open spec fn platform_of(t: Seq<char>) -> Option<Platform> {
    if t == "odroidc1"@ {
        Some(Platform::Odriodc1)
    } else if t == "odroidc2"@ {
        Some(Platform::Odriodc2)
    } else if t == "odroidxu4"@ {
        Some(Platform::Odriodxu4)
    } else if t == "bananapi1"@ {
        Some(Platform::BananaPi1)
    } else if t == "bananapim2"@ {
        Some(Platform::BananaPim2)
    } else if t == "pcduino1"@ {
        Some(Platform::Pcduino1)
    } else if t == "milkv_duo"@ {
        Some(Platform::MilkVDuo)
    } else if t == "milkv_duo256m"@ {
        Some(Platform::MilkVDuo256M)
    } else if t == "milkv_duos"@ {
        Some(Platform::MilkVDuoS)
    } else if t == "rock4"@ {
        Some(Platform::Rock4)
    } else if t == "rock5b"@ {
        Some(Platform::Rock5b)
    } else if t == "raspberrypi1b1"@ {
        Some(Platform::RaspberryPi1b1)
    } else if t == "raspberrypi1b2"@ {
        Some(Platform::RaspberryPi1b2)
    } else if t == "raspberrypi1b+"@ {
        Some(Platform::RaspberryPi1bPlus)
    } else if t == "raspberrypi1bplus"@ {
        Some(Platform::RaspberryPi1bPlus)
    } else if t == "raspberrypi2"@ {
        Some(Platform::RaspberryPi2)
    } else if t == "raspberrypi3"@ {
        Some(Platform::RaspberryPi3)
    } else if t == "raspberrypi4"@ {
        Some(Platform::RaspberryPi4)
    } else if t == "raspberrypizero"@ {
        Some(Platform::RaspberryPiZero)
    } else if t == "hummingboard_base_dq"@ {
        Some(Platform::HummingboardBasedq)
    } else if t == "hummingboard_pro_dq"@ {
        Some(Platform::HummingboardProdq)
    } else if t == "hummingboard_base_sdl"@ {
        Some(Platform::HummingboardBasesdl)
    } else if t == "hummingboard_pro_sdl"@ {
        Some(Platform::HummingboardProsdl)
    } else if t == "hummingboard_gate_dq"@ {
        Some(Platform::HummingboardGatedq)
    } else if t == "hummingboard_edge_dq"@ {
        Some(Platform::HummingboardEdgedq)
    } else if t == "hummingboard_gate_sdl"@ {
        Some(Platform::HummingboardGatesdl)
    } else if t == "hummingboard_edge_sdl"@ {
        Some(Platform::HummingboardEdgesdl)
    } else if t == "orangepipc2"@ {
        Some(Platform::OrangePiPC2)
    } else if t == "orangepipc+"@ {
        Some(Platform::OrangePiPCPlus)
    } else if t == "orangepipcplus"@ {
        Some(Platform::OrangePiPCPlus)
    } else {
        None
    }
}

impl Platform {
    /// The name under which the native library knows this board.
    pub open spec fn spec_name(self) -> Seq<char> {
        match self {
            Platform::Odriodc1 => "odroidc1"@,
            Platform::Odriodc2 => "odroidc2"@,
            Platform::Odriodxu4 => "odroidxu4"@,
            Platform::BananaPi1 => "bananapi1"@,
            Platform::BananaPim2 => "bananapim2"@,
            Platform::Pcduino1 => "pcduino1"@,
            Platform::MilkVDuo => "milkv_duo"@,
            Platform::MilkVDuo256M => "milkv_duo256m"@,
            Platform::MilkVDuoS => "milkv_duos"@,
            Platform::Rock4 => "rock4"@,
            Platform::Rock5b => "rock5b"@,
            Platform::RaspberryPi1b1 => "raspberrypi1b1"@,
            Platform::RaspberryPi1b2 => "raspberrypi1b2"@,
            Platform::RaspberryPi1bPlus => "raspberrypi1b+"@,
            Platform::RaspberryPi2 => "raspberrypi2"@,
            Platform::RaspberryPi3 => "raspberrypi3"@,
            Platform::RaspberryPi4 => "raspberrypi4"@,
            Platform::RaspberryPiZero => "raspberrypizero"@,
            Platform::HummingboardBasedq => "hummingboard_base_dq"@,
            Platform::HummingboardProdq => "hummingboard_pro_dq"@,
            Platform::HummingboardBasesdl => "hummingboard_base_sdl"@,
            Platform::HummingboardProsdl => "hummingboard_pro_sdl"@,
            Platform::HummingboardGatedq => "hummingboard_gate_dq"@,
            Platform::HummingboardEdgedq => "hummingboard_edge_dq"@,
            Platform::HummingboardGatesdl => "hummingboard_gate_sdl"@,
            Platform::HummingboardEdgesdl => "hummingboard_edge_sdl"@,
            Platform::OrangePiPC2 => "orangepipc2"@,
            Platform::OrangePiPCPlus => "orangepipc+"@,
        }
    }

    /// Returns the name under which the native library knows this board.
    pub fn name(&self) -> (r: &'static str)
        ensures
            r@ == self.spec_name(),
    {
        match self {
            Platform::Odriodc1 => "odroidc1",
            Platform::Odriodc2 => "odroidc2",
            Platform::Odriodxu4 => "odroidxu4",
            Platform::BananaPi1 => "bananapi1",
            Platform::BananaPim2 => "bananapim2",
            Platform::Pcduino1 => "pcduino1",
            Platform::MilkVDuo => "milkv_duo",
            Platform::MilkVDuo256M => "milkv_duo256m",
            Platform::MilkVDuoS => "milkv_duos",
            Platform::Rock4 => "rock4",
            Platform::Rock5b => "rock5b",
            Platform::RaspberryPi1b1 => "raspberrypi1b1",
            Platform::RaspberryPi1b2 => "raspberrypi1b2",
            Platform::RaspberryPi1bPlus => "raspberrypi1b+",
            Platform::RaspberryPi2 => "raspberrypi2",
            Platform::RaspberryPi3 => "raspberrypi3",
            Platform::RaspberryPi4 => "raspberrypi4",
            Platform::RaspberryPiZero => "raspberrypizero",
            Platform::HummingboardBasedq => "hummingboard_base_dq",
            Platform::HummingboardProdq => "hummingboard_pro_dq",
            Platform::HummingboardBasesdl => "hummingboard_base_sdl",
            Platform::HummingboardProsdl => "hummingboard_pro_sdl",
            Platform::HummingboardGatedq => "hummingboard_gate_dq",
            Platform::HummingboardEdgedq => "hummingboard_edge_dq",
            Platform::HummingboardGatesdl => "hummingboard_gate_sdl",
            Platform::HummingboardEdgesdl => "hummingboard_edge_sdl",
            Platform::OrangePiPC2 => "orangepipc2",
            Platform::OrangePiPCPlus => "orangepipc+",
        }
    }

    /// Parses a board from a token that is already in lower case.
    pub fn from_lowercase(token: &str) -> (r: Option<Platform>)
        ensures
            r == platform_of(token@),
    {
        if str_eq(token, "odroidc1") {
            return Some(Platform::Odriodc1);
        }
        if str_eq(token, "odroidc2") {
            return Some(Platform::Odriodc2);
        }
        if str_eq(token, "odroidxu4") {
            return Some(Platform::Odriodxu4);
        }
        if str_eq(token, "bananapi1") {
            return Some(Platform::BananaPi1);
        }
        if str_eq(token, "bananapim2") {
            return Some(Platform::BananaPim2);
        }
        if str_eq(token, "pcduino1") {
            return Some(Platform::Pcduino1);
        }
        if str_eq(token, "milkv_duo") {
            return Some(Platform::MilkVDuo);
        }
        if str_eq(token, "milkv_duo256m") {
            return Some(Platform::MilkVDuo256M);
        }
        if str_eq(token, "milkv_duos") {
            return Some(Platform::MilkVDuoS);
        }
        if str_eq(token, "rock4") {
            return Some(Platform::Rock4);
        }
        if str_eq(token, "rock5b") {
            return Some(Platform::Rock5b);
        }
        if str_eq(token, "raspberrypi1b1") {
            return Some(Platform::RaspberryPi1b1);
        }
        if str_eq(token, "raspberrypi1b2") {
            return Some(Platform::RaspberryPi1b2);
        }
        if str_eq(token, "raspberrypi1b+") {
            return Some(Platform::RaspberryPi1bPlus);
        }
        if str_eq(token, "raspberrypi1bplus") {
            return Some(Platform::RaspberryPi1bPlus);
        }
        if str_eq(token, "raspberrypi2") {
            return Some(Platform::RaspberryPi2);
        }
        if str_eq(token, "raspberrypi3") {
            return Some(Platform::RaspberryPi3);
        }
        if str_eq(token, "raspberrypi4") {
            return Some(Platform::RaspberryPi4);
        }
        if str_eq(token, "raspberrypizero") {
            return Some(Platform::RaspberryPiZero);
        }
        if str_eq(token, "hummingboard_base_dq") {
            return Some(Platform::HummingboardBasedq);
        }
        if str_eq(token, "hummingboard_pro_dq") {
            return Some(Platform::HummingboardProdq);
        }
        if str_eq(token, "hummingboard_base_sdl") {
            return Some(Platform::HummingboardBasesdl);
        }
        if str_eq(token, "hummingboard_pro_sdl") {
            return Some(Platform::HummingboardProsdl);
        }
        if str_eq(token, "hummingboard_gate_dq") {
            return Some(Platform::HummingboardGatedq);
        }
        if str_eq(token, "hummingboard_edge_dq") {
            return Some(Platform::HummingboardEdgedq);
        }
        if str_eq(token, "hummingboard_gate_sdl") {
            return Some(Platform::HummingboardGatesdl);
        }
        if str_eq(token, "hummingboard_edge_sdl") {
            return Some(Platform::HummingboardEdgesdl);
        }
        if str_eq(token, "orangepipc2") {
            return Some(Platform::OrangePiPC2);
        }
        if str_eq(token, "orangepipc+") {
            return Some(Platform::OrangePiPCPlus);
        }
        if str_eq(token, "orangepipcplus") {
            return Some(Platform::OrangePiPCPlus);
        }
        None
    }

    /// Parses a board from its name, ignoring the case of letters.
    pub fn from_string(string: &str) -> (r: Result<Platform, PlatformParseError>)
        ensures
            r matches Ok(p) ==> platform_of(lower_of(string@)) == Some(p),
            r matches Err(e) ==> platform_of(lower_of(string@)) is None && e@ == string@,
    {
        let lowered = lowercase(string);
        match Platform::from_lowercase(lowered.as_str()) {
            Some(p) => Ok(p),
            None => Err(PlatformParseError(String::from_str(string))),
        }
    }
}

/// Every board's name parses back to that board.
#[verifier::rlimit(50)]
pub proof fn lemma_name_parses(p: Platform)
    ensures
        platform_of(p.spec_name()) == Some(p),
{
    reveal_strlit("odroidc1");
    reveal_strlit("odroidc2");
    reveal_strlit("odroidxu4");
    reveal_strlit("bananapi1");
    reveal_strlit("bananapim2");
    reveal_strlit("pcduino1");
    reveal_strlit("milkv_duo");
    reveal_strlit("milkv_duo256m");
    reveal_strlit("milkv_duos");
    reveal_strlit("rock4");
    reveal_strlit("rock5b");
    reveal_strlit("raspberrypi1b1");
    reveal_strlit("raspberrypi1b2");
    reveal_strlit("raspberrypi1b+");
    reveal_strlit("raspberrypi1bplus");
    reveal_strlit("raspberrypi2");
    reveal_strlit("raspberrypi3");
    reveal_strlit("raspberrypi4");
    reveal_strlit("raspberrypizero");
    reveal_strlit("hummingboard_base_dq");
    reveal_strlit("hummingboard_pro_dq");
    reveal_strlit("hummingboard_base_sdl");
    reveal_strlit("hummingboard_pro_sdl");
    reveal_strlit("hummingboard_gate_dq");
    reveal_strlit("hummingboard_edge_dq");
    reveal_strlit("hummingboard_gate_sdl");
    reveal_strlit("hummingboard_edge_sdl");
    reveal_strlit("orangepipc2");
    reveal_strlit("orangepipc+");
    reveal_strlit("orangepipcplus");
    assert("odroidc1"@.len() == 8);
    assert("odroidc2"@.len() == 8);
    assert("odroidxu4"@.len() == 9);
    assert("bananapi1"@.len() == 9);
    assert("bananapim2"@.len() == 10);
    assert("pcduino1"@.len() == 8);
    assert("milkv_duo"@.len() == 9);
    assert("milkv_duo256m"@.len() == 13);
    assert("milkv_duos"@.len() == 10);
    assert("rock4"@.len() == 5);
    assert("rock5b"@.len() == 6);
    assert("raspberrypi1b1"@.len() == 14);
    assert("raspberrypi1b2"@.len() == 14);
    assert("raspberrypi1b+"@.len() == 14);
    assert("raspberrypi1bplus"@.len() == 17);
    assert("raspberrypi2"@.len() == 12);
    assert("raspberrypi3"@.len() == 12);
    assert("raspberrypi4"@.len() == 12);
    assert("raspberrypizero"@.len() == 15);
    assert("hummingboard_base_dq"@.len() == 20);
    assert("hummingboard_pro_dq"@.len() == 19);
    assert("hummingboard_base_sdl"@.len() == 21);
    assert("hummingboard_pro_sdl"@.len() == 20);
    assert("hummingboard_gate_dq"@.len() == 20);
    assert("hummingboard_edge_dq"@.len() == 20);
    assert("hummingboard_gate_sdl"@.len() == 21);
    assert("hummingboard_edge_sdl"@.len() == 21);
    assert("orangepipc2"@.len() == 11);
    assert("orangepipc+"@.len() == 11);
    assert("orangepipcplus"@.len() == 14);
    match p {
        Platform::Odriodc1 => {},
        Platform::Odriodc2 => {
            assert("odroidc2"@[7] != "odroidc1"@[7]);
        },
        Platform::Odriodxu4 => {},
        Platform::BananaPi1 => {
            assert("bananapi1"@[0] != "odroidxu4"@[0]);
        },
        Platform::BananaPim2 => {},
        Platform::Pcduino1 => {
            assert("pcduino1"@[0] != "odroidc1"@[0]);
            assert("pcduino1"@[0] != "odroidc2"@[0]);
        },
        Platform::MilkVDuo => {
            assert("milkv_duo"@[0] != "odroidxu4"@[0]);
            assert("milkv_duo"@[0] != "bananapi1"@[0]);
        },
        Platform::MilkVDuo256M => {},
        Platform::MilkVDuoS => {
            assert("milkv_duos"@[0] != "bananapim2"@[0]);
        },
        Platform::Rock4 => {},
        Platform::Rock5b => {},
        Platform::RaspberryPi1b1 => {},
        Platform::RaspberryPi1b2 => {
            assert("raspberrypi1b2"@[13] != "raspberrypi1b1"@[13]);
        },
        Platform::RaspberryPi1bPlus => {
            assert("raspberrypi1b+"@[13] != "raspberrypi1b1"@[13]);
            assert("raspberrypi1b+"@[13] != "raspberrypi1b2"@[13]);
        },
        Platform::RaspberryPi2 => {},
        Platform::RaspberryPi3 => {
            assert("raspberrypi3"@[11] != "raspberrypi2"@[11]);
        },
        Platform::RaspberryPi4 => {
            assert("raspberrypi4"@[11] != "raspberrypi2"@[11]);
            assert("raspberrypi4"@[11] != "raspberrypi3"@[11]);
        },
        Platform::RaspberryPiZero => {},
        Platform::HummingboardBasedq => {},
        Platform::HummingboardProdq => {},
        Platform::HummingboardBasesdl => {},
        Platform::HummingboardProsdl => {
            assert("hummingboard_pro_sdl"@[13] != "hummingboard_base_dq"@[13]);
        },
        Platform::HummingboardGatedq => {
            assert("hummingboard_gate_dq"@[13] != "hummingboard_base_dq"@[13]);
            assert("hummingboard_gate_dq"@[13] != "hummingboard_pro_sdl"@[13]);
        },
        Platform::HummingboardEdgedq => {
            assert("hummingboard_edge_dq"@[13] != "hummingboard_base_dq"@[13]);
            assert("hummingboard_edge_dq"@[13] != "hummingboard_pro_sdl"@[13]);
            assert("hummingboard_edge_dq"@[13] != "hummingboard_gate_dq"@[13]);
        },
        Platform::HummingboardGatesdl => {
            assert("hummingboard_gate_sdl"@[13] != "hummingboard_base_sdl"@[13]);
        },
        Platform::HummingboardEdgesdl => {
            assert("hummingboard_edge_sdl"@[13] != "hummingboard_base_sdl"@[13]);
            assert("hummingboard_edge_sdl"@[13] != "hummingboard_gate_sdl"@[13]);
        },
        Platform::OrangePiPC2 => {},
        Platform::OrangePiPCPlus => {
            assert("orangepipc+"@[10] != "orangepipc2"@[10]);
        },
    }
}

/// Relies on `str::to_lowercase`: the result depends on the characters alone.
#[verifier::external_body]
fn lowercase(s: &str) -> (r: String)
    ensures
        r@ == lower_of(s@),
{
    s.to_lowercase()
}

/// Compares two strings character by character.
pub fn str_eq(a: &str, b: &str) -> (r: bool)
    ensures
        r == (a@ == b@),
{
    let n = a.unicode_len();
    if n != b.unicode_len() {
        return false;
    }
    let mut i: usize = 0;
    while i < n
        invariant
            n == a@.len(),
            n == b@.len(),
            i <= n,
            a@.subrange(0, i as int) == b@.subrange(0, i as int),
        decreases n - i,
    {
        if a.get_char(i) != b.get_char(i) {
            assert(a@[i as int] != b@[i as int]);
            return false;
        }
        assert(a@.subrange(0, i + 1) == a@.subrange(0, i as int).push(a@[i as int]));
        assert(b@.subrange(0, i + 1) == b@.subrange(0, i as int).push(b@[i as int]));
        i += 1;
    }
    assert(a@ == a@.subrange(0, n as int));
    assert(b@ == b@.subrange(0, n as int));
    true
}

/// Returned when a string names no known board; it keeps the string.
#[derive(Debug)]
pub struct PlatformParseError(String);

impl View for PlatformParseError {
    type V = Seq<char>;

    closed spec fn view(&self) -> Seq<char> {
        self.0@
    }
}

impl PlatformParseError {
    /// The string that could not be parsed.
    pub fn input(&self) -> (r: &str)
        ensures
            r@ == self@,
    {
        self.0.as_str()
    }

    /// A message that names the string.
    pub fn message(&self) -> (r: String)
        ensures
            r@ == "Can not determine a valid platform from "@ + self@ + "."@,
    {
        let mut m = String::from_str("Can not determine a valid platform from ");
        m.append(self.0.as_str());
        m.append(".");
        m
    }
}

} // verus!

