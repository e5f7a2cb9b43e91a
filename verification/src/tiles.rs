use vstd::prelude::*;

verus! {

/// The three suits of number tiles.
#[derive(Clone, Copy, Debug, PartialEq, Eq, Structural, Hash)]
pub enum Suhai {
    Manzu,
    Pinzu,
    Souzu,
}

/// The four winds.
#[derive(Clone, Copy, Debug, PartialEq, Eq, Structural, Hash)]
pub enum Kaze {
    Ton,
    Nan,
    Shaa,
    Pei,
}

/// The three dragons.
#[derive(Clone, Copy, Debug, PartialEq, Eq, Structural, Hash)]
pub enum Sangenpai {
    Haku,
    Hatsu,
    Chun,
}

/// Honor tiles: winds and dragons.
#[derive(Clone, Copy, Debug, PartialEq, Eq, Structural, Hash)]
pub enum Jihai {
    Kaze(Kaze),
    Sangen(Sangenpai),
}

/// A tile: a number tile (rank, suit) or an honor tile.
#[derive(Clone, Copy, Debug, PartialEq, Eq, Structural, Hash)]
pub enum Hai {
    Suhai(u8, Suhai),
    Jihai(Jihai),
}

/// A tile is well formed when a number tile has a rank between 1 and 9.
pub open spec fn hai_wf(h: Hai) -> bool {
    match h {
        Hai::Suhai(n, _) => 1 <= n <= 9,
        Hai::Jihai(_) => true,
    }
}

/// Position of a suit in the 34-slot tile order.
pub open spec fn suit_offset(s: Suhai) -> int {
    match s {
        Suhai::Manzu => 0,
        Suhai::Pinzu => 9,
        Suhai::Souzu => 18,
    }
}

/// The slot of a tile in the 34-slot order: 0-8 manzu, 9-17 pinzu, 18-26 souzu,
/// 27-30 winds (Ton, Nan, Shaa, Pei), 31-33 dragons (Haku, Hatsu, Chun).
pub open spec fn tile_index(h: Hai) -> int {
    match h {
        Hai::Suhai(n, s) => suit_offset(s) + n - 1,
        Hai::Jihai(Jihai::Kaze(Kaze::Ton)) => 27,
        Hai::Jihai(Jihai::Kaze(Kaze::Nan)) => 28,
        Hai::Jihai(Jihai::Kaze(Kaze::Shaa)) => 29,
        Hai::Jihai(Jihai::Kaze(Kaze::Pei)) => 30,
        Hai::Jihai(Jihai::Sangen(Sangenpai::Haku)) => 31,
        Hai::Jihai(Jihai::Sangen(Sangenpai::Hatsu)) => 32,
        Hai::Jihai(Jihai::Sangen(Sangenpai::Chun)) => 33,
    }
}

/// The tile in a slot of the 34-slot order.
pub open spec fn tile_at(i: int) -> Hai {
    if 0 <= i <= 8 {
        Hai::Suhai((i + 1) as u8, Suhai::Manzu)
    } else if 9 <= i <= 17 {
        Hai::Suhai((i - 8) as u8, Suhai::Pinzu)
    } else if 18 <= i <= 26 {
        Hai::Suhai((i - 17) as u8, Suhai::Souzu)
    } else if i == 27 {
        Hai::Jihai(Jihai::Kaze(Kaze::Ton))
    } else if i == 28 {
        Hai::Jihai(Jihai::Kaze(Kaze::Nan))
    } else if i == 29 {
        Hai::Jihai(Jihai::Kaze(Kaze::Shaa))
    } else if i == 30 {
        Hai::Jihai(Jihai::Kaze(Kaze::Pei))
    } else if i == 31 {
        Hai::Jihai(Jihai::Sangen(Sangenpai::Haku))
    } else if i == 32 {
        Hai::Jihai(Jihai::Sangen(Sangenpai::Hatsu))
    } else {
        Hai::Jihai(Jihai::Sangen(Sangenpai::Chun))
    }
}

/// The 34-slot order is a bijection between well-formed tiles and the slots 0..34.
pub proof fn lemma_tile_index_bijection(h: Hai, i: int)
    ensures
        hai_wf(h) ==> 0 <= tile_index(h) < 34 && tile_at(tile_index(h)) == h,
        0 <= i < 34 ==> hai_wf(tile_at(i)) && tile_index(tile_at(i)) == i,
{
}

/// The slot of a tile (`index_from_hai`); the rank of a number tile must be at least 1.
pub fn index_from_hai(hai: Hai) -> (idx: usize)
    requires
        hai matches Hai::Suhai(n, _) ==> n >= 1,
    ensures
        idx == tile_index(hai),
{
    match hai {
        Hai::Suhai(n, Suhai::Manzu) => (n - 1) as usize,
        Hai::Suhai(n, Suhai::Pinzu) => (n - 1) as usize + 9,
        Hai::Suhai(n, Suhai::Souzu) => (n - 1) as usize + 18,
        Hai::Jihai(Jihai::Kaze(Kaze::Ton)) => 27,
        Hai::Jihai(Jihai::Kaze(Kaze::Nan)) => 28,
        Hai::Jihai(Jihai::Kaze(Kaze::Shaa)) => 29,
        Hai::Jihai(Jihai::Kaze(Kaze::Pei)) => 30,
        Hai::Jihai(Jihai::Sangen(Sangenpai::Haku)) => 31,
        Hai::Jihai(Jihai::Sangen(Sangenpai::Hatsu)) => 32,
        Hai::Jihai(Jihai::Sangen(Sangenpai::Chun)) => 33,
    }
}

/// The tile in a slot (`hai_from_index`); the slot must be below 34.
pub fn hai_from_index(idx: usize) -> (hai: Hai)
    requires
        idx < 34,
    ensures
        hai == tile_at(idx as int),
        hai_wf(hai),
        tile_index(hai) == idx,
{
    if idx <= 8 {
        Hai::Suhai((idx + 1) as u8, Suhai::Manzu)
    } else if idx <= 17 {
        Hai::Suhai((idx - 9 + 1) as u8, Suhai::Pinzu)
    } else if idx <= 26 {
        Hai::Suhai((idx - 18 + 1) as u8, Suhai::Souzu)
    } else if idx == 27 {
        Hai::Jihai(Jihai::Kaze(Kaze::Ton))
    } else if idx == 28 {
        Hai::Jihai(Jihai::Kaze(Kaze::Nan))
    } else if idx == 29 {
        Hai::Jihai(Jihai::Kaze(Kaze::Shaa))
    } else if idx == 30 {
        Hai::Jihai(Jihai::Kaze(Kaze::Pei))
    } else if idx == 31 {
        Hai::Jihai(Jihai::Sangen(Sangenpai::Haku))
    } else if idx == 32 {
        Hai::Jihai(Jihai::Sangen(Sangenpai::Hatsu))
    } else {
        Hai::Jihai(Jihai::Sangen(Sangenpai::Chun))
    }
}


/// A simple: a number tile from 2 to 8.
pub open spec fn simple_tile(t: Hai) -> bool {
    match t {
        Hai::Suhai(n, _) => 2 <= n <= 8,
        Hai::Jihai(_) => false,
    }
}

/// A terminal: a number tile 1 or 9.
pub open spec fn terminal_tile(t: Hai) -> bool {
    match t {
        Hai::Suhai(n, _) => n == 1 || n == 9,
        Hai::Jihai(_) => false,
    }
}

/// An honor tile: a wind or a dragon.
pub open spec fn honor_tile(t: Hai) -> bool {
    t is Jihai
}

/// A terminal or honor tile.
pub open spec fn yaochuu_tile(t: Hai) -> bool {
    terminal_tile(t) || honor_tile(t)
}

/// A tile of the all-green hand: souzu 2, 3, 4, 6, 8 and the green dragon.
pub open spec fn green_tile(t: Hai) -> bool {
    match t {
        Hai::Suhai(n, Suhai::Souzu) => n == 2 || n == 3 || n == 4 || n == 6 || n == 8,
        Hai::Jihai(Jihai::Sangen(Sangenpai::Hatsu)) => true,
        _ => false,
    }
}

/// The dora that an indicator names: the next tile of its suit, 9 wrapping to 1, the
/// next wind (Ton, Nan, Shaa, Pei, Ton) or the next dragon (Haku, Hatsu, Chun, Haku).
pub open spec fn dora_of(indicator: Hai) -> Hai {
    match indicator {
        Hai::Suhai(n, s) => if n == 9 {
            Hai::Suhai(1, s)
        } else {
            Hai::Suhai((n + 1) as u8, s)
        },
        Hai::Jihai(Jihai::Kaze(k)) => Hai::Jihai(
            Jihai::Kaze(
                match k {
                    Kaze::Ton => Kaze::Nan,
                    Kaze::Nan => Kaze::Shaa,
                    Kaze::Shaa => Kaze::Pei,
                    Kaze::Pei => Kaze::Ton,
                },
            ),
        ),
        Hai::Jihai(Jihai::Sangen(d)) => Hai::Jihai(
            Jihai::Sangen(
                match d {
                    Sangenpai::Haku => Sangenpai::Hatsu,
                    Sangenpai::Hatsu => Sangenpai::Chun,
                    Sangenpai::Chun => Sangenpai::Haku,
                },
            ),
        ),
    }
}

/// Is the tile a simple (2-8 of a suit)?
pub fn is_simple(tile: &Hai) -> (r: bool)
    ensures
        r == simple_tile(*tile),
{
    match tile {
        Hai::Suhai(n, _) => *n >= 2 && *n <= 8,
        Hai::Jihai(_) => false,
    }
}

/// Is the tile a terminal (1 or 9)?
pub fn is_terminal(tile: &Hai) -> (r: bool)
    ensures
        r == terminal_tile(*tile),
{
    match tile {
        Hai::Suhai(n, _) => *n == 1 || *n == 9,
        Hai::Jihai(_) => false,
    }
}

/// Is the tile an honor tile (wind or dragon)?
pub fn is_jihai(tile: &Hai) -> (r: bool)
    ensures
        r == honor_tile(*tile),
{
    matches!(tile, Hai::Jihai(_))
}

/// Is the tile a terminal or honor?
pub fn is_yaochuu(tile: &Hai) -> (r: bool)
    ensures
        r == yaochuu_tile(*tile),
{
    is_terminal(tile) || is_jihai(tile)
}

/// Is the tile part of the all-green hand?
pub fn is_green_tile(tile: &Hai) -> (r: bool)
    ensures
        r == green_tile(*tile),
{
    match tile {
        Hai::Suhai(n, Suhai::Souzu) => *n == 2 || *n == 3 || *n == 4 || *n == 6 || *n == 8,
        Hai::Jihai(Jihai::Sangen(Sangenpai::Hatsu)) => true,
        _ => false,
    }
}

/// The dora that an indicator names. A number tile's rank must be below 255.
pub fn get_dora_tile(indicator: &Hai) -> (d: Hai)
    requires
        indicator matches Hai::Suhai(n, _) ==> n < 255,
    ensures
        d == dora_of(*indicator),
{
    match indicator {
        Hai::Suhai(n, s) => {
            if *n == 9 {
                Hai::Suhai(1, *s)
            } else {
                Hai::Suhai(n + 1, *s)
            }
        },
        Hai::Jihai(Jihai::Kaze(k)) => Hai::Jihai(
            Jihai::Kaze(
                match k {
                    Kaze::Ton => Kaze::Nan,
                    Kaze::Nan => Kaze::Shaa,
                    Kaze::Shaa => Kaze::Pei,
                    Kaze::Pei => Kaze::Ton,
                },
            ),
        ),
        Hai::Jihai(Jihai::Sangen(s)) => Hai::Jihai(
            Jihai::Sangen(
                match s {
                    Sangenpai::Haku => Sangenpai::Hatsu,
                    Sangenpai::Hatsu => Sangenpai::Chun,
                    Sangenpai::Chun => Sangenpai::Haku,
                },
            ),
        ),
    }
}

/// The dora of a well-formed indicator is a well-formed tile of the same kind, and the
/// indicators cycle: nine steps bring a number tile back, four a wind, three a dragon.
pub proof fn lemma_dora_cycles(t: Hai)
    requires
        hai_wf(t),
    ensures
        hai_wf(dora_of(t)),
        t is Suhai ==> dora_of(dora_of(dora_of(dora_of(dora_of(dora_of(dora_of(dora_of(
            dora_of(t),
        )))))))) == t,
        t matches Hai::Jihai(Jihai::Kaze(_)) ==> dora_of(dora_of(dora_of(dora_of(t)))) == t,
        t matches Hai::Jihai(Jihai::Sangen(_)) ==> dora_of(dora_of(dora_of(t))) == t,
        dora_of(t) != t,
{
}

} // verus!
