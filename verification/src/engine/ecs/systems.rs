//! Decisions of the game's systems that need no world.

use vstd::prelude::*;
use vstd::string::StringExecFns;

verus! {

/// The number of folders of sprite textures.
pub const TEXTURE_FOLDERS: i32 = 5;

/// The number of textures in each folder.
pub const TEXTURES_PER_FOLDER: i32 = 9;

/// The distance of `x` from 0.
pub open spec fn magnitude(x: int) -> int {
    if x < 0 {
        -x
    } else {
        x
    }
}

/// The remainder of `x` by `m` with the sign of `x`, as the machine's `%` gives it.
pub open spec fn signed_rem(x: int, m: int) -> int {
    if x >= 0 {
        x % m
    } else {
        -((-x) % m)
    }
}

/// The name of the `index`-th folder of sprite textures.
pub open spec fn folder_name(index: int) -> Seq<char> {
    if index == 0 {
        "Dark"@
    } else if index == 1 {
        "Green"@
    } else if index == 2 {
        "Orange"@
    } else if index == 3 {
        "Purple"@
    } else {
        "Red"@
    }
}

/// The digit that stands for a number from 1 to 9.
pub open spec fn digit(number: int) -> Seq<char> {
    if number == 1 {
        "1"@
    } else if number == 2 {
        "2"@
    } else if number == 3 {
        "3"@
    } else if number == 4 {
        "4"@
    } else if number == 5 {
        "5"@
    } else if number == 6 {
        "6"@
    } else if number == 7 {
        "7"@
    } else if number == 8 {
        "8"@
    } else {
        "9"@
    }
}

/// The folder that a random number picks: one of the five, whatever the number.
pub open spec fn picked_folder(random: int) -> int {
    magnitude(signed_rem(random, TEXTURE_FOLDERS as int))
}

/// The texture that a random number picks in its folder: one of the nine,
/// counted from 1, whatever the number.
pub open spec fn picked_number(random: int) -> int {
    magnitude(signed_rem(random, TEXTURES_PER_FOLDER as int)) + 1
}

/// The path of the texture that two random numbers pick: the folder, then
/// `texture_0`, the number and `.png`.
pub open spec fn picked_texture(random_index: int, random_folder: int) -> Seq<char> {
    folder_name(picked_folder(random_folder)) + "/texture_0"@ + digit(picked_number(random_index))
        + ".png"@
}

fn folder(index: i32) -> (name: &'static str)
    ensures
        name@ == folder_name(index as int),
{
    if index == 0 {
        "Dark"
    } else if index == 1 {
        "Green"
    } else if index == 2 {
        "Orange"
    } else if index == 3 {
        "Purple"
    } else {
        "Red"
    }
}

fn digit_of(number: i32) -> (text: &'static str)
    ensures
        text@ == digit(number as int),
{
    if number == 1 {
        "1"
    } else if number == 2 {
        "2"
    } else if number == 3 {
        "3"
    } else if number == 4 {
        "4"
    } else if number == 5 {
        "5"
    } else if number == 6 {
        "6"
    } else if number == 7 {
        "7"
    } else if number == 8 {
        "8"
    } else {
        "9"
    }
}

/// The remainder of `x` by a positive `m`, with the sign of `x`, made positive.
fn rem_magnitude(x: i32, m: i32) -> (r: i32)
    requires
        0 < m,
    ensures
        r == magnitude(signed_rem(x as int, m as int)),
        0 <= r < m,
{
    if x >= 0 {
        x % m
    } else if x == i32::MIN {
        // the one number whose opposite the machine cannot hold
        let shifted: i32 = -(x + m);
        assert(((-x) as int) % (m as int) == (shifted as int) % (m as int)) by (nonlinear_arith)
            requires
                shifted == -x - m,
                0 < m,
        ;
        shifted % m
    } else {
        (-x) % m
    }
}

/// The path of the texture that two random numbers pick.
pub fn choose_texture(random_index: i32, random_folder: i32) -> (path: String)
    ensures
        path@ == picked_texture(random_index as int, random_folder as int),
{
    let rng_idx: i32 = rem_magnitude(random_index, TEXTURES_PER_FOLDER);
    let rng_folder: i32 = rem_magnitude(random_folder, TEXTURE_FOLDERS);
    let number: i32 = rng_idx + 1;
    let mut path = String::from_str(folder(rng_folder));
    path.append("/texture_0");
    path.append(digit_of(number));
    path.append(".png");
    path
}

/// Calls `rand::random` for an `i32`. Nothing is promised of the number.
#[verifier::external_body]
fn random_i32() -> i32 {
    rand::random::<i32>()
}

/// The path of a texture picked at random: whatever the two numbers drawn,
/// the path is that of one of the nine textures of one of the five folders.
pub fn random_texture() -> (path: String)
    ensures
        exists|random_index: int, random_folder: int|
            path@ == picked_texture(random_index, random_folder),
{
    let random_index: i32 = random_i32();
    let random_folder: i32 = random_i32();
    choose_texture(random_index, random_folder)
}

} // verus!
