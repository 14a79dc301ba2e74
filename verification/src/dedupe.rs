//! Short-name deduplication: one pass over the arguments in order, keeping
//! for each short character the identifier of the argument that owns it.
use vstd::prelude::*;
use std::collections::HashMap;
use crate::error::{SchemaError, SchemaErrorModel};
use crate::help::{args_view, ArgModel, ArgView};

verus! {

/// The first of the first `n` arguments whose short character is `ch`.
pub open spec fn owner_of(args: Seq<ArgModel>, ch: char, n: int) -> Option<int>
    decreases n,
{
    if n <= 0 || n > args.len() {
        None
    } else {
        match owner_of(args, ch, n - 1) {
            Some(i) => Some(i),
            None => if args[n - 1].short == Some(ch) {
                Some(n - 1)
            } else {
                None
            },
        }
    }
}

/// Whether argument `j` wants a short character that an earlier argument
/// owns.
pub open spec fn collides(args: Seq<ArgModel>, j: int) -> bool {
    0 <= j < args.len() && args[j].short is Some && owner_of(args, args[j].short->0, j) is Some
}

/// The first of the first `n` arguments that collides with an earlier one.
pub open spec fn first_collision(args: Seq<ArgModel>, n: int) -> Option<int>
    decreases n,
{
    if n <= 0 || n > args.len() {
        None
    } else {
        match first_collision(args, n - 1) {
            Some(j) => Some(j),
            None => if collides(args, n - 1) {
                Some(n - 1)
            } else {
                None
            },
        }
    }
}

/// The error for the collision at argument `j`: it names the character, the
/// argument itself and the earlier owner.
pub open spec fn collision_error(args: Seq<ArgModel>, j: int) -> SchemaErrorModel {
    let ch = args[j].short->0;
    SchemaErrorModel::DuplicateShortName {
        short: ch,
        identifier: args[j].name,
        owner: args[owner_of(args, ch, j)->0].name,
    }
}

/// What the pass over all arguments finds: the error of the first
/// collision, or nothing.
pub open spec fn duplicate_short(args: Seq<ArgModel>) -> Option<SchemaErrorModel> {
    match first_collision(args, args.len() as int) {
        Some(j) => Some(collision_error(args, j)),
        None => None,
    }
}

/// The key under which a short character is registered.
pub open spec fn short_key(ch: char) -> u32 {
    ch as u32
}

/// Two characters with one key are the same character.
pub proof fn lemma_short_key_injective(a: char, b: char)
    ensures
        short_key(a) == short_key(b) ==> a == b,
{
    vstd::utf8::char_u32_cast(a, short_key(a));
    vstd::utf8::char_u32_cast(b, short_key(b));
}

/// Whether the mapping holds, for the first `n` arguments, exactly the short
/// characters they own, each with its owner's identifier.
pub open spec fn registry_of(dupes: Map<u32, String>, args: Seq<ArgModel>, n: int) -> bool {
    &&& forall|ch: char|
        (#[trigger] owner_of(args, ch, n)) is Some <==> dupes.contains_key(short_key(ch))
    &&& forall|ch: char|
        (#[trigger] owner_of(args, ch, n)) matches Some(i) ==> dupes[short_key(ch)]@
            == args[i].name
}

/// An owner is an earlier argument with that short character, and no
/// argument before the owner has it.
pub proof fn lemma_owner_of(args: Seq<ArgModel>, ch: char, n: int)
    requires
        0 <= n <= args.len(),
    ensures
        owner_of(args, ch, n) matches Some(i) ==> 0 <= i < n && args[i].short == Some(ch)
            && forall|k: int| 0 <= k < i ==> (#[trigger] args[k]).short != Some(ch),
        owner_of(args, ch, n) is None ==> forall|k: int|
            0 <= k < n ==> (#[trigger] args[k]).short != Some(ch),
    decreases n,
{
    if n > 0 {
        lemma_owner_of(args, ch, n - 1);
    }
}

/// Registers the short character of one argument. An argument without one
/// changes nothing. A character that is free is given to the argument. A
/// character that is taken is an error naming the argument and the owner,
/// and the mapping stays as it was.
pub fn dedupe(dupes: &mut HashMap<u32, String>, arg: &ArgView) -> (r: Result<(), SchemaError>)
    ensures
        match arg.short {
            None => r is Ok && final(dupes)@ == old(dupes)@,
            Some(ch) => if old(dupes)@.contains_key(short_key(ch)) {
                &&& r matches Err(e)
                &&& e@ == (SchemaErrorModel::DuplicateShortName {
                    short: ch,
                    identifier: arg.name@,
                    owner: old(dupes)@[short_key(ch)]@,
                })
                &&& final(dupes)@ == old(dupes)@
            } else {
                &&& r is Ok
                &&& final(dupes)@ == old(dupes)@.insert(short_key(ch), arg.name)
            },
        },
{
    if let Some(ch) = arg.short {
        let key: u32 = ch as u32;
        if let Some(other) = dupes.get(&key) {
            return Err(
                SchemaError::DuplicateShortName {
                    short: ch,
                    identifier: arg.name.clone(),
                    owner: other.clone(),
                },
            );
        }
        dupes.insert(key, arg.name.clone());
    }
    Ok(())
}

/// A mapping that holds the owners among the first `n` arguments holds the
/// owners among the first `n + 1` once argument `n` is registered.
pub proof fn lemma_registry_grows(
    before: Map<u32, String>,
    after: Map<u32, String>,
    args: Seq<ArgModel>,
    n: int,
    name: String,
)
    requires
        0 <= n < args.len(),
        registry_of(before, args, n),
        name@ == args[n].name,
        match args[n].short {
            None => after == before,
            Some(ch) => !before.contains_key(short_key(ch)) && after == before.insert(
                short_key(ch),
                name,
            ),
        },
    ensures
        registry_of(after, args, n + 1),
{
    assert forall|c: char|
        (#[trigger] owner_of(args, c, n + 1)) is Some <==> after.contains_key(short_key(c)) by {
        let _ = owner_of(args, c, n);
        if args[n].short is Some {
            lemma_short_key_injective(c, args[n].short->0);
        }
    }
    assert forall|c: char| (#[trigger] owner_of(args, c, n + 1)) is Some implies after[short_key(
        c,
    )]@ == args[owner_of(args, c, n + 1)->0].name by {
        let _ = owner_of(args, c, n);
        if args[n].short is Some {
            lemma_short_key_injective(c, args[n].short->0);
        }
    }
}

/// Runs the deduplication pass over the arguments in order and stops at the
/// first collision.
pub fn dedupe_all(args: &Vec<ArgView>) -> (r: Result<(), SchemaError>)
    ensures
        match r {
            Ok(_) => duplicate_short(args_view(args@)) is None,
            Err(e) => duplicate_short(args_view(args@)) == Some(e@),
        },
{
    let ghost all = args_view(args@);
    let mut dupes: HashMap<u32, String> = HashMap::new();
    let mut i: usize = 0;
    while i < args.len()
        invariant
            i <= args.len(),
            all == args_view(args@),
            first_collision(all, i as int) is None,
            registry_of(dupes@, all, i as int),
        decreases args.len() - i,
    {
        let ghost before = dupes@;
        let arg = &args[i];
        let step = dedupe(&mut dupes, arg);
        match step {
            Err(e) => {
                proof {
                    assert(collides(all, i as int));
                    lemma_first_collision_extends(all, i as int + 1, args.len() as int);
                }
                return Err(e);
            },
            Ok(_) => {
                proof {
                    lemma_registry_grows(before, dupes@, all, i as int, arg.name);
                }
            },
        }
        i += 1;
    }
    Ok(())
}

/// A collision found among the first `n` arguments is still the first
/// collision among any more of them.
pub proof fn lemma_first_collision_extends(args: Seq<ArgModel>, n: int, m: int)
    requires
        0 <= n <= m <= args.len(),
        first_collision(args, n) is Some,
    ensures
        first_collision(args, m) == first_collision(args, n),
    decreases m - n,
{
    if n < m {
        lemma_first_collision_extends(args, n, m - 1);
    }
}

/// The first collision is a collision, and no argument before it is one.
pub proof fn lemma_first_collision(args: Seq<ArgModel>, n: int)
    requires
        0 <= n <= args.len(),
    ensures
        first_collision(args, n) matches Some(j) ==> 0 <= j < n && collides(args, j)
            && forall|k: int| 0 <= k < j ==> !collides(args, k),
        first_collision(args, n) is None ==> forall|k: int| 0 <= k < n ==> !collides(args, k),
    decreases n,
{
    if n > 0 {
        lemma_first_collision(args, n - 1);
    }
}

/// Whenever two arguments share a short character, the pass fails with
/// `DuplicateShortName`, and the error names two different arguments that
/// share its character: the one the pass stopped at, and the first argument
/// with that character, which comes before it.
pub proof fn lemma_shared_short_is_rejected(args: Seq<ArgModel>, a: int, b: int)
    requires
        0 <= a < b < args.len(),
        args[a].short is Some,
        args[a].short == args[b].short,
    ensures
        duplicate_short(args) matches Some(
            SchemaErrorModel::DuplicateShortName { short, identifier, owner },
        ) && exists|i: int, j: int|
            0 <= i < j <= b && #[trigger] args[i].short == Some(short) && #[trigger] args[j].short
                == Some(short) && identifier == args[j].name && owner == args[i].name,
{
    let n = args.len() as int;
    lemma_first_collision(args, n);
    lemma_owner_of(args, args[b].short->0, b);
    assert(collides(args, b));
    let j = first_collision(args, n)->0;
    let ch = args[j].short->0;
    lemma_owner_of(args, ch, j);
    let i = owner_of(args, ch, j)->0;
    assert(args[i].short == Some(ch) && args[j].short == Some(ch));
}

/// Where no two arguments share a short character, the pass succeeds.
pub proof fn lemma_distinct_shorts_pass(args: Seq<ArgModel>)
    requires
        forall|a: int, b: int|
            0 <= a < b < args.len() && (#[trigger] args[a]).short is Some ==> args[a].short
                != (#[trigger] args[b]).short,
    ensures
        duplicate_short(args) is None,
{
    let n = args.len() as int;
    lemma_first_collision(args, n);
    if first_collision(args, n) is Some {
        let j = first_collision(args, n)->0;
        let ch = args[j].short->0;
        lemma_owner_of(args, ch, j);
        let i = owner_of(args, ch, j)->0;
        assert(args[i].short == args[j].short);
    }
}

} // verus!
