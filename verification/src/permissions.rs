//! Channel permissions granted by the lock and unlock commands, and the
//! role overwrite that applies them.
use vstd::prelude::*;
use serenity::model::Permissions;

verus! {

/// The permission flags this bot grants on a channel overwrite.
#[derive(Clone, Copy, Debug, PartialEq, Eq, Structural)]
pub enum Permission {
    ViewChannel,
    ReadMessageHistory,
    CreatePublicThreads,
    SendMessages,
    SendMessagesInThreads,
    EmbedLinks,
    AttachFiles,
    AddReactions,
    UseExternalEmojis,
    UseExternalStickers,
}

/// Bit of a flag in the Discord permission word.
pub open spec fn flag_bit(p: Permission) -> u64 {
    match p {
        Permission::ViewChannel => 0x400,  // 1 << 10
        Permission::ReadMessageHistory => 0x1_0000,  // 1 << 16
        Permission::CreatePublicThreads => 0x8_0000_0000,  // 1 << 35
        Permission::SendMessages => 0x800,  // 1 << 11
        Permission::SendMessagesInThreads => 0x40_0000_0000,  // 1 << 38
        Permission::EmbedLinks => 0x4000,  // 1 << 14
        Permission::AttachFiles => 0x8000,  // 1 << 15
        Permission::AddReactions => 0x40,  // 1 << 6
        Permission::UseExternalEmojis => 0x4_0000,  // 1 << 18
        Permission::UseExternalStickers => 0x20_0000_0000,  // 1 << 37
    }
}

/// Every flag serenity's `Permissions` defines: bits 0 to 40.
pub open spec fn all_flags() -> u64 {
    0x1FF_FFFF_FFFF
}

/// `Permissions::bits` of serenity's constant for the flag (`VIEW_CHANNEL`,
/// `READ_MESSAGE_HISTORY`, ...). The contract claims the value that serenity's
/// source gives the constant.
#[verifier::external_body]
fn serenity_flag_bits(p: Permission) -> (bits: u64)
    ensures
        bits == flag_bit(p),
{
    match p {
        Permission::ViewChannel => Permissions::VIEW_CHANNEL.bits(),
        Permission::ReadMessageHistory => Permissions::READ_MESSAGE_HISTORY.bits(),
        Permission::CreatePublicThreads => Permissions::CREATE_PUBLIC_THREADS.bits(),
        Permission::SendMessages => Permissions::SEND_MESSAGES.bits(),
        Permission::SendMessagesInThreads => Permissions::SEND_MESSAGES_IN_THREADS.bits(),
        Permission::EmbedLinks => Permissions::EMBED_LINKS.bits(),
        Permission::AttachFiles => Permissions::ATTACH_FILES.bits(),
        Permission::AddReactions => Permissions::ADD_REACTIONS.bits(),
        Permission::UseExternalEmojis => Permissions::USE_EXTERNAL_EMOJIS.bits(),
        Permission::UseExternalStickers => Permissions::USE_EXTERNAL_STICKERS.bits(),
    }
}

/// serenity's `!` on `Permissions` (from `Permissions::from_bits_truncate`):
/// the flags that `bits` leaves out, among all the flags serenity defines.
#[verifier::external_body]
fn serenity_complement(bits: u64) -> (rest: u64)
    ensures
        rest == !bits & all_flags(),
{
    (!Permissions::from_bits_truncate(bits)).bits()
}

/// Whether the permission word holds the flag.
pub open spec fn has_flag(bits: u64, p: Permission) -> bool {
    bits & flag_bit(p) != 0
}

/// Whether the permission word holds only flags that serenity defines.
pub open spec fn known_flags(bits: u64) -> bool {
    bits & !all_flags() == 0
}

/// A set of permission flags, as a permission word that holds only flags
/// serenity defines.
#[derive(Clone, Copy, Debug, PartialEq, Eq, Structural)]
pub struct PermissionSet {
    bits: u64,
}

impl View for PermissionSet {
    type V = u64;

    closed spec fn view(&self) -> u64 {
        self.bits
    }
}

impl PermissionSet {
    #[verifier::type_invariant]
    spec fn only_known_flags(self) -> bool {
        known_flags(self.bits)
    }

    /// Whether the set holds the flag.
    pub open spec fn has(self, p: Permission) -> bool {
        has_flag(self@, p)
    }

    /// The permission word.
    pub fn bits(&self) -> (b: u64)
        ensures
            b == self@,
            known_flags(b),
    {
        proof {
            use_type_invariant(self);
        }
        self.bits
    }

    /// Whether the set holds the flag.
    pub fn allows(&self, p: Permission) -> (b: bool)
        ensures
            b == self.has(p),
    {
        self.bits() & serenity_flag_bits(p) != 0
    }
}

proof fn lemma_flag_known(p: Permission)
    ensures
        known_flags(flag_bit(p)),
{
    assert(0x400u64 & !0x1FF_FFFF_FFFFu64 == 0) by (bit_vector);
    assert(0x1_0000u64 & !0x1FF_FFFF_FFFFu64 == 0) by (bit_vector);
    assert(0x8_0000_0000u64 & !0x1FF_FFFF_FFFFu64 == 0) by (bit_vector);
    assert(0x800u64 & !0x1FF_FFFF_FFFFu64 == 0) by (bit_vector);
    assert(0x40_0000_0000u64 & !0x1FF_FFFF_FFFFu64 == 0) by (bit_vector);
    assert(0x4000u64 & !0x1FF_FFFF_FFFFu64 == 0) by (bit_vector);
    assert(0x8000u64 & !0x1FF_FFFF_FFFFu64 == 0) by (bit_vector);
    assert(0x40u64 & !0x1FF_FFFF_FFFFu64 == 0) by (bit_vector);
    assert(0x4_0000u64 & !0x1FF_FFFF_FFFFu64 == 0) by (bit_vector);
    assert(0x20_0000_0000u64 & !0x1FF_FFFF_FFFFu64 == 0) by (bit_vector);
}

proof fn lemma_union_known(a: u64, b: u64)
    requires
        known_flags(a),
        known_flags(b),
    ensures
        known_flags(a | b),
{
    assert(a & !0x1FF_FFFF_FFFFu64 == 0 && b & !0x1FF_FFFF_FFFFu64 == 0 ==> (a | b) & !0x1FF_FFFF_FFFFu64 == 0) by (bit_vector);
}

/// The permission word holding exactly the listed flags.
pub open spec fn union_bits(flags: Seq<Permission>) -> u64
    decreases flags.len(),
{
    if flags.len() == 0 {
        0
    } else {
        union_bits(flags.drop_last()) | flag_bit(flags.last())
    }
}

/// The set of the listed flags (`Permissions::empty() | a | b | ...`).
pub fn permission_set(flags: &Vec<Permission>) -> (s: PermissionSet)
    ensures
        s@ == union_bits(flags@),
{
    let mut bits: u64 = 0;
    let mut i: usize = 0;
    assert(0u64 & !0x1FF_FFFF_FFFFu64 == 0) by (bit_vector);
    while i < flags.len()
        invariant
            i <= flags.len(),
            bits == union_bits(flags@.take(i as int)),
            known_flags(bits),
        decreases flags.len() - i,
    {
        assert(flags@.take(i + 1).drop_last() =~= flags@.take(i as int));
        proof {
            lemma_flag_known(flags@[i as int]);
            lemma_union_known(bits, flag_bit(flags@[i as int]));
        }
        bits = bits | serenity_flag_bits(flags[i]);
        i = i + 1;
    }
    assert(flags@.take(flags.len() as int) =~= flags@);
    PermissionSet { bits }
}

/// Flags that `/lock` leaves to everyone: the channel stays readable.
pub open spec fn lock_flags() -> Seq<Permission> {
    seq![Permission::ViewChannel, Permission::ReadMessageHistory]
}

/// Flags that `/unlock` gives to everyone.
pub open spec fn unlock_flags() -> Seq<Permission> {
    seq![
        Permission::ViewChannel,
        Permission::ReadMessageHistory,
        Permission::CreatePublicThreads,
        Permission::SendMessages,
        Permission::SendMessagesInThreads,
        Permission::EmbedLinks,
        Permission::AttachFiles,
        Permission::AddReactions,
        Permission::UseExternalEmojis,
        Permission::UseExternalStickers,
    ]
}

/// The permissions of a locked channel.
pub fn lock_permissions() -> (s: PermissionSet)
    ensures
        s@ == union_bits(lock_flags()),
{
    let flags = vec![Permission::ViewChannel, Permission::ReadMessageHistory];
    assert(flags@ == lock_flags());
    permission_set(&flags)
}

/// The permissions of an unlocked channel.
pub fn unlock_permissions() -> (s: PermissionSet)
    ensures
        s@ == union_bits(unlock_flags()),
{
    let flags = vec![
        Permission::ViewChannel,
        Permission::ReadMessageHistory,
        Permission::CreatePublicThreads,
        Permission::SendMessages,
        Permission::SendMessagesInThreads,
        Permission::EmbedLinks,
        Permission::AttachFiles,
        Permission::AddReactions,
        Permission::UseExternalEmojis,
        Permission::UseExternalStickers,
    ];
    assert(flags@ == unlock_flags());
    permission_set(&flags)
}

/// A channel permission overwrite for one role: the flags it allows and
/// the flags it denies.
#[derive(Clone, Copy, Debug, PartialEq, Eq, Structural)]
pub struct PermissionOverwrite {
    pub allow: u64,
    pub deny: u64,
    pub role_id: u64,
}

/// The overwrite that gives the role exactly `allow`: everything else that
/// serenity knows of is denied (`deny: !perms`), so allow and deny split
/// serenity's flags between them.
pub fn overwrite_for_role(allow: PermissionSet, role_id: u64) -> (o: PermissionOverwrite)
    ensures
        o.allow == allow@,
        o.deny == !allow@ & all_flags(),
        o.role_id == role_id,
        o.allow & o.deny == 0,
        o.allow | o.deny == all_flags(),
{
    let bits = allow.bits();
    let deny = serenity_complement(bits);
    assert(bits & (!bits & 0x1FF_FFFF_FFFFu64) == 0) by (bit_vector);
    assert(bits & !0x1FF_FFFF_FFFFu64 == 0 ==> bits | (!bits & 0x1FF_FFFF_FFFFu64)
        == 0x1FF_FFFF_FFFFu64) by (bit_vector);
    PermissionOverwrite { allow: bits, deny, role_id }
}

} // verus!
