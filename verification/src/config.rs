//! The validated overlay configuration: clock and frame-counter overlay
//! settings, the rules a configuration must satisfy, and the pure part of
//! resolving a path below the configuration directory.

pub mod fps;
pub mod position;
pub mod text;
pub mod time;

use vstd::prelude::*;

use crate::config::fps::FpsConfig;
use crate::config::position::{spec_is_corner, Position};
use crate::config::text::Text;
use crate::config::time::TimeConfig;
use crate::error::{NeedleErr, NeedleError};
use crate::time::TimeFormat;
use crate::utils::str_eq;

verus! {

/// The settings the configuration collaborator hands the core at startup.
/// The background color channels live with the presentation layer.
#[derive(Debug, Clone, PartialEq)]
pub struct NeedleConfig {
    pub time: TimeConfig,
    pub fps: FpsConfig,
}

/// A configuration is positionally valid when a disabled frame counter
/// constrains nothing, and an enabled one sits in a corner that the clock
/// overlay does not occupy.
pub open spec fn spec_positions_valid(c: NeedleConfig) -> bool {
    c.fps.enable ==> (spec_is_corner(c.fps.config.position) && c.fps.config.position
        != c.time.config.position)
}

/// The character sequences of a list of strings.
pub open spec fn seq_views(s: Seq<String>) -> Seq<Seq<char>> {
    s.map_values(|x: String| x@)
}

/// Resolving relative path segments against a base component stack: empty,
/// current-directory and blank segments are skipped, a parent segment pops
/// one component and fails on an empty stack, anything else is appended.
pub open spec fn spec_resolve_path(base: Seq<Seq<char>>, segs: Seq<Seq<char>>) -> Option<
    Seq<Seq<char>>,
>
    decreases segs.len(),
{
    if segs.len() == 0 {
        Some(base)
    } else {
        let seg = segs[0];
        let rest = segs.drop_first();
        if seg == Seq::<char>::empty() || seg == seq!['.'] || seg == seq![' '] || seg
            == seq!['\t'] {
            spec_resolve_path(base, rest)
        } else if seg == seq!['.', '.'] {
            if base.len() == 0 {
                None
            } else {
                spec_resolve_path(base.drop_last(), rest)
            }
        } else {
            spec_resolve_path(base.push(seg), rest)
        }
    }
}

impl NeedleConfig {
    /// Checks the positional rules: an enabled frame counter must sit in a
    /// corner, and must not share its anchor with the clock overlay.
    pub fn validate(&self) -> (r: NeedleErr<()>)
        ensures
            r is Ok <==> spec_positions_valid(*self),
            self.fps.enable && !spec_is_corner(self.fps.config.position) ==> r
                == NeedleErr::<()>::Err(
                NeedleError::InvalidFpsTextPosition(self.fps.config.position),
            ),
            self.fps.enable && spec_is_corner(self.fps.config.position) && self.fps.config.position
                == self.time.config.position ==> r == NeedleErr::<()>::Err(
                NeedleError::TextPositionOverlapping,
            ),
    {
        if self.fps.enable && !self.fps.is_valid_position() {
            Err(NeedleError::InvalidFpsTextPosition(self.fps.config.position))
        } else if self.fps.enable && self.fps.config.position == self.time.config.position {
            Err(NeedleError::TextPositionOverlapping)
        } else {
            Ok(())
        }
    }

    /// Walks relative path segments over the components of the
    /// configuration directory; see [`spec_resolve_path`]. A walk that
    /// climbs above the root reports an invalid path.
    #[verifier::loop_isolation(false)]
    pub fn resolve_path(base: Vec<String>, segments: &Vec<String>) -> (r: NeedleErr<Vec<String>>)
        ensures
            match spec_resolve_path(seq_views(base@), seq_views(segments@)) {
                Some(p) => r matches Ok(v) && seq_views(v@) == p,
                None => r == NeedleErr::<Vec<String>>::Err(NeedleError::InvalidPath),
            },
    {
        let ghost orig: Seq<Seq<char>> = seq_views(base@);
        let ghost all: Seq<Seq<char>> = seq_views(segments@);
        let mut path = base;
        let mut i: usize = 0;
        proof {
            assert(all.subrange(0, all.len() as int) =~= all);
        }
        while i < segments.len()
            invariant
                i <= segments@.len(),
                all == seq_views(segments@),
                spec_resolve_path(orig, all) == spec_resolve_path(
                    seq_views(path@),
                    all.subrange(i as int, all.len() as int),
                ),
            decreases segments@.len() - i,
        {
            let ghost pre = seq_views(path@);
            let ghost tail = all.subrange(i as int, all.len() as int);
            let seg = segments[i].as_str();
            proof {
                assert(tail[0] == seg@);
                assert(tail.drop_first() =~= all.subrange(i + 1, all.len() as int));
                reveal_strlit(".");
                reveal_strlit(" ");
                reveal_strlit("\t");
                reveal_strlit("..");
                assert("."@ =~= seq!['.']);
                assert(" "@ =~= seq![' ']);
                assert("\t"@ =~= seq!['\t']);
                assert(".."@ =~= seq!['.', '.']);
            }
            if seg.is_empty() || str_eq(seg, ".") || str_eq(seg, " ") || str_eq(seg, "\t") {
                proof {
                    if seg@.len() == 0 {
                        assert(seg@ =~= Seq::<char>::empty());
                    }
                }
            } else if str_eq(seg, "..") {
                if path.pop().is_none() {
                    proof {
                        assert(pre.len() == 0);
                    }
                    return Err(NeedleError::InvalidPath);
                }
                proof {
                    assert(seq_views(path@) =~= pre.drop_last());
                }
            } else {
                path.push(segments[i].clone());
                proof {
                    assert(seq_views(path@) =~= pre.push(seg@));
                }
            }
            i = i + 1;
        }
        proof {
            assert(all.subrange(i as int, all.len() as int) =~= Seq::<Seq<char>>::empty());
        }
        Ok(path)
    }
}

impl Default for NeedleConfig {
    /// The stock configuration: a centered white clock without milliseconds,
    /// and a disabled red frame counter in the top-right corner capped at 30
    /// frames per second.
    fn default() -> (r: NeedleConfig)
        ensures
            r.time.format == TimeFormat::HourMinSec,
            r.time.font is None,
            r.time.config == (Text { color: [255u8, 255u8, 255u8, 255u8], position: Position::Center }),
            r.fps.enable == false,
            r.fps.frame_limit == 30u8,
            r.fps.config == (Text { color: [255u8, 0u8, 0u8, 255u8], position: Position::TopRight }),
    {
        NeedleConfig {
            time: TimeConfig {
                format: TimeFormat::HourMinSec,
                font: None,
                config: Text { color: [255, 255, 255, 255], position: Position::Center },
            },
            fps: FpsConfig {
                enable: false,
                frame_limit: 30,
                config: Text { color: [255, 0, 0, 255], position: Position::TopRight },
            },
        }
    }
}

} // verus!
