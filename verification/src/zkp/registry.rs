//! The named groups: a small one for trials, and the three groups of
//! RFC 5114, sections 2.1 to 2.3.

use crate::bignum::number::from_u32;
use crate::crypto::GroupView;
use crate::grpc::auth::messages::group_name;
use crate::grpc::auth::messages::lemma_group_names_differ;
use crate::grpc::auth::messages::Group;
use crate::zkp::error::CryptoError;
use crate::zkp::hex_number;
use crate::zkp::is_hex_number;
use crate::zkp::is_second_generator;
use crate::zkp::valid_base;
use crate::zkp::GroupParams;
use vstd::prelude::*;

verus! {

/// The modulus `p` of the group with a 1024-bit `p` and a 160-bit `q`.
pub const MODP_1024_160_P: &'static str = "
    B10B8F96 A080E01D DE92DE5E AE5D54EC 52C99FBC FB06A3C6
    9A6A9DCA 52D23B61 6073E286 75A23D18 9838EF1E 2EE652C0
    13ECB4AE A9061123 24975C3C D49B83BF ACCBDD7D 90C4BD70
    98488E9C 219A7372 4EFFD6FA E5644738 FAA31A4F F55BCCC0
    A151AF5F 0DC8B4BD 45BF37DF 365C1A65 E68CFDA7 6D4DA708
    DF1FB2BC 2E4A4371
";

/// The order `q` of the group with a 1024-bit `p` and a 160-bit `q`.
pub const MODP_1024_160_Q: &'static str = "
    F518AA87 81A8DF27 8ABA4E7D 64B7CB9D 49462353
";

/// The generator of the group with a 1024-bit `p` and a 160-bit `q`.
pub const MODP_1024_160_G: &'static str = "
    A4D1CBD5 C3FD3412 6765A442 EFB99905 F8104DD2 58AC507F
    D6406CFF 14266D31 266FEA1E 5C41564B 777E690F 5504F213
    160217B4 B01B886A 5E91547F 9E2749F4 D7FBD7D3 B9A92EE1
    909D0D22 63F80A76 A6A24C08 7A091F53 1DBF0A01 69B6A28A
    D662A4D1 8E73AFA3 2D779D59 18D08BC8 858F4DCE F97C2A24
    855E6EEB 22B3B2E5
";

/// The modulus `p` of the group with a 2048-bit `p` and a 224-bit `q`.
pub const MODP_2048_224_P: &'static str = "
    AD107E1E 9123A9D0 D660FAA7 9559C51F A20D64E5 683B9FD1
    B54B1597 B61D0A75 E6FA141D F95A56DB AF9A3C40 7BA1DF15
    EB3D688A 309C180E 1DE6B85A 1274A0A6 6D3F8152 AD6AC212
    9037C9ED EFDA4DF8 D91E8FEF 55B7394B 7AD5B7D0 B6C12207
    C9F98D11 ED34DBF6 C6BA0B2C 8BBC27BE 6A00E0A0 B9C49708
    B3BF8A31 70918836 81286130 BC8985DB 1602E714 415D9330
    278273C7 DE31EFDC 7310F712 1FD5A074 15987D9A DC0A486D
    CDF93ACC 44328387 315D75E1 98C641A4 80CD86A1 B9E587E8
    BE60E69C C928B2B9 C52172E4 13042E9B 23F10B0E 16E79763
    C9B53DCF 4BA80A29 E3FB73C1 6B8E75B9 7EF363E2 FFA31F71
    CF9DE538 4E71B81C 0AC4DFFE 0C10E64F
";

/// The order `q` of the group with a 2048-bit `p` and a 224-bit `q`.
pub const MODP_2048_224_Q: &'static str = "
    801C0D34 C58D93FE 99717710 1F80535A 4738CEBC BF389A99
    B36371EB
";

/// The generator of the group with a 2048-bit `p` and a 224-bit `q`.
pub const MODP_2048_224_G: &'static str = "
    AC4032EF 4F2D9AE3 9DF30B5C 8FFDAC50 6CDEBE7B 89998CAF
    74866A08 CFE4FFE3 A6824A4E 10B9A6F0 DD921F01 A70C4AFA
    AB739D77 00C29F52 C57DB17C 620A8652 BE5E9001 A8D66AD7
    C1766910 1999024A F4D02727 5AC1348B B8A762D0 521BC98A
    E2471504 22EA1ED4 09939D54 DA7460CD B5F6C6B2 50717CBE
    F180EB34 118E98D1 19529A45 D6F83456 6E3025E3 16A330EF
    BB77A86F 0C1AB15B 051AE3D4 28C8F8AC B70A8137 150B8EEB
    10E183ED D19963DD D9E263E4 770589EF 6AA21E7F 5F2FF381
    B539CCE3 409D13CD 566AFBB4 8D6C0191 81E1BCFE 94B30269
    EDFE72FE 9B6AA4BD 7B5A0F1C 71CFFF4C 19C418E1 F6EC0179
    81BC087F 2A7065B3 84B890D3 191F2BFA
";

/// The modulus `p` of the group with a 2048-bit `p` and a 256-bit `q`.
pub const MODP_2048_256_P: &'static str = "
    87A8E61D B4B6663C FFBBD19C 65195999 8CEEF608 660DD0F2
    5D2CEED4 435E3B00 E00DF8F1 D61957D4 FAF7DF45 61B2AA30
    16C3D911 34096FAA 3BF4296D 830E9A7C 209E0C64 97517ABD
    5A8A9D30 6BCF67ED 91F9E672 5B4758C0 22E0B1EF 4275BF7B
    6C5BFC11 D45F9088 B941F54E B1E59BB8 BC39A0BF 12307F5C
    4FDB70C5 81B23F76 B63ACAE1 CAA6B790 2D525267 35488A0E
    F13C6D9A 51BFA4AB 3AD83477 96524D8E F6A167B5 A41825D9
    67E144E5 14056425 1CCACB83 E6B486F6 B3CA3F79 71506026
    C0B857F6 89962856 DED4010A BD0BE621 C3A3960A 54E710C3
    75F26375 D7014103 A4B54330 C198AF12 6116D227 6E11715F
    693877FA D7EF09CA DB094AE9 1E1A1597
";

/// The order `q` of the group with a 2048-bit `p` and a 256-bit `q`.
pub const MODP_2048_256_Q: &'static str = "
    8CF83642 A709A097 B4479976 40129DA2 99B1A47D 1EB3750B
    A308B0FE 64F5FBD3
";

/// The generator of the group with a 2048-bit `p` and a 256-bit `q`.
pub const MODP_2048_256_G: &'static str = "
    3FB32C9B 73134D0B 2E775066 60EDBD48 4CA7B18F 21EF2054
    07F4793A 1A0BA125 10DBC150 77BE463F FF4FED4A AC0BB555
    BE3A6C1B 0C6B47B1 BC3773BF 7E8C6F62 901228F8 C28CBB18
    A55AE313 41000A65 0196F931 C77A57F2 DDF463E5 E9EC144B
    777DE62A AAB8A862 8AC376D2 82D6ED38 64E67982 428EBC83
    1D14348F 6F2F9193 B5045AF2 767164E1 DFC967C1 FB3F2E55
    A4BD1BFF E83B9C80 D052B985 D182EA0A DB2A3B73 13D3FE14
    C8484B1E 052588B9 B7D2BBD2 DF016199 ECD06E15 57CD0915
    B3353BBB 64E0EC37 7FD02837 0DF92B52 C7891428 CDC67EB6
    184B523D 1DB246C3 2F630784 90F00EF8 D647D148 D4795451
    5E2327CF EF98C582 664B4C0F 6CC41659
";

/// The named groups, each with the second generator that was drawn for it
/// when the registry was set up.
pub struct GroupRegistry {
    modp_0005_004: GroupParams,
    modp_1024_160: GroupParams,
    modp_2048_224: GroupParams,
    modp_2048_256: GroupParams,
}

/// The moduli and the first generator of a named group.
pub open spec fn named_base(id: Group) -> Option<(nat, nat, nat)> {
    match id {
        Group::UnspecifiedGroup => None,
        Group::ModP004BitQGroup => Some((23, 11, 4)),
        Group::ModP160BitQGroup => Some(
            (
                hex_number(MODP_1024_160_P@),
                hex_number(MODP_1024_160_Q@),
                hex_number(MODP_1024_160_G@),
            ),
        ),
        Group::ModP224BitQGroup => Some(
            (
                hex_number(MODP_2048_224_P@),
                hex_number(MODP_2048_224_Q@),
                hex_number(MODP_2048_224_G@),
            ),
        ),
        Group::ModP256BitQGroup => Some(
            (
                hex_number(MODP_2048_256_P@),
                hex_number(MODP_2048_256_Q@),
                hex_number(MODP_2048_256_G@),
            ),
        ),
    }
}

/// Whether the parameters of a named group are written well: those of the
/// three large groups stand above in hexadecimal digits and white space, an
/// even number of digits each.
pub open spec fn is_written_well(id: Group) -> bool {
    match id {
        Group::UnspecifiedGroup => true,
        Group::ModP004BitQGroup => true,
        Group::ModP160BitQGroup => is_hex_number(MODP_1024_160_P@) && is_hex_number(
            MODP_1024_160_Q@,
        ) && is_hex_number(MODP_1024_160_G@),
        Group::ModP224BitQGroup => is_hex_number(MODP_2048_224_P@) && is_hex_number(
            MODP_2048_224_Q@,
        ) && is_hex_number(MODP_2048_224_G@),
        Group::ModP256BitQGroup => is_hex_number(MODP_2048_256_P@) && is_hex_number(
            MODP_2048_256_Q@,
        ) && is_hex_number(MODP_2048_256_G@),
    }
}

/// Whether the moduli and the first generator of a named group fit together.
pub open spec fn has_valid_base(id: Group) -> bool {
    named_base(id) matches Some(base) ==> valid_base(base.0, base.1, base.2)
}

/// Whether `group` is the named group `id` with some second generator.
pub open spec fn is_named(group: GroupView, id: Group) -> bool {
    &&& named_base(id) matches Some(base)
    &&& group.p == base.0
    &&& group.q == base.1
    &&& group.alpha == base.2
    &&& is_second_generator(group.p, group.q, group.alpha, group.beta)
    &&& group.well_formed()
}

impl GroupRegistry {
    /// The group that the registry holds under `id`.
    pub closed spec fn group(&self, id: Group) -> Option<GroupView> {
        match id {
            Group::UnspecifiedGroup => None,
            Group::ModP004BitQGroup => Some(self.modp_0005_004@),
            Group::ModP160BitQGroup => Some(self.modp_1024_160@),
            Group::ModP224BitQGroup => Some(self.modp_2048_224@),
            Group::ModP256BitQGroup => Some(self.modp_2048_256@),
        }
    }

    /// Whether every group of the registry has the parameters of its name.
    pub open spec fn well_formed(&self) -> bool {
        forall|id: Group|
            id != Group::UnspecifiedGroup ==> (#[trigger] self.group(id) matches Some(g)
                && is_named(g, id))
    }

    /// Sets up the four groups, one after the other, and draws a second
    /// generator for each. It stops at the first group that cannot be set
    /// up: with `InvalidHex` where a parameter of the group is not written
    /// well, with `InvalidParameters` where its moduli and first generator do
    /// not fit together, and with `GeneratorNotFound` where they do and no
    /// draw gave a second generator.
    pub fn new() -> (res: Result<Self, CryptoError>)
        ensures
            match res {
                Ok(registry) => registry.well_formed() && forall|id: Group|
                    is_written_well(id) && has_valid_base(id),
                Err(e) => match e {
                    CryptoError::InvalidHex => exists|id: Group| !is_written_well(id),
                    CryptoError::InvalidParameters => exists|id: Group|
                        is_written_well(id) && !has_valid_base(id),
                    CryptoError::GeneratorNotFound => exists|id: Group|
                        id != Group::UnspecifiedGroup && is_written_well(id) && has_valid_base(
                            id,
                        ),
                    CryptoError::GroupNotSpecified => false,
                },
            },
    {
        let modp_0005_004 = match GroupParams::from((from_u32(23), from_u32(11), from_u32(4))) {
            Ok(group) => group,
            Err(e) => {
                assert(is_written_well(Group::ModP004BitQGroup) && has_valid_base(
                    Group::ModP004BitQGroup,
                ));
                return Err(e);
            },
        };
        let modp_1024_160 = match GroupParams::from_hex(
            (MODP_1024_160_P, MODP_1024_160_Q, MODP_1024_160_G),
        ) {
            Ok(group) => group,
            Err(e) => {
                assert(is_written_well(Group::ModP160BitQGroup) ==> (has_valid_base(
                    Group::ModP160BitQGroup,
                ) <==> e == CryptoError::GeneratorNotFound));
                return Err(e);
            },
        };
        let modp_2048_224 = match GroupParams::from_hex(
            (MODP_2048_224_P, MODP_2048_224_Q, MODP_2048_224_G),
        ) {
            Ok(group) => group,
            Err(e) => {
                assert(is_written_well(Group::ModP224BitQGroup) ==> (has_valid_base(
                    Group::ModP224BitQGroup,
                ) <==> e == CryptoError::GeneratorNotFound));
                return Err(e);
            },
        };
        let modp_2048_256 = match GroupParams::from_hex(
            (MODP_2048_256_P, MODP_2048_256_Q, MODP_2048_256_G),
        ) {
            Ok(group) => group,
            Err(e) => {
                assert(is_written_well(Group::ModP256BitQGroup) ==> (has_valid_base(
                    Group::ModP256BitQGroup,
                ) <==> e == CryptoError::GeneratorNotFound));
                return Err(e);
            },
        };
        assert forall|id: Group| is_written_well(id) && has_valid_base(id) by {
            match id {
                Group::UnspecifiedGroup => {},
                Group::ModP004BitQGroup => {},
                Group::ModP160BitQGroup => {},
                Group::ModP224BitQGroup => {},
                Group::ModP256BitQGroup => {},
            }
        }
        Ok(GroupRegistry { modp_0005_004, modp_1024_160, modp_2048_224, modp_2048_256 })
    }

    /// Looks a group up by its identifier. The unspecified identifier names
    /// no group.
    pub fn lookup(&self, id: Group) -> (res: Result<&GroupParams, CryptoError>)
        ensures
            res is Err <==> id == Group::UnspecifiedGroup,
            match res {
                Ok(group) => self.group(id) == Some(group@),
                Err(e) => e == CryptoError::GroupNotSpecified && self.group(id) is None,
            },
    {
        match id {
            Group::UnspecifiedGroup => Err(CryptoError::GroupNotSpecified),
            Group::ModP004BitQGroup => Ok(&self.modp_0005_004),
            Group::ModP160BitQGroup => Ok(&self.modp_1024_160),
            Group::ModP224BitQGroup => Ok(&self.modp_2048_224),
            Group::ModP256BitQGroup => Ok(&self.modp_2048_256),
        }
    }
}

impl GroupRegistry {
    /// Looks a group up by the name of its identifier. A name that is not
    /// recognized names no group, nor does that of the unspecified
    /// identifier.
    pub fn lookup_name(&self, name: &str) -> (res: Result<&GroupParams, CryptoError>)
        ensures
            res is Err <==> forall|id: Group|
                name@ == group_name(id) ==> id == Group::UnspecifiedGroup,
            match res {
                Ok(group) => exists|id: Group|
                    name@ == group_name(id) && self.group(id) == Some(group@),
                Err(e) => e == CryptoError::GroupNotSpecified,
            },
    {
        match Group::from_str_name(name) {
            Some(id) => {
                proof {
                    assert forall|other: Group| name@ == group_name(other) implies other == id by {
                        if other != id {
                            lemma_group_names_differ(other, id);
                        }
                    }
                }
                self.lookup(id)
            },
            None => Err(CryptoError::GroupNotSpecified),
        }
    }
}

} // verus!
