//! The streaming anchor and the synchronizer that feeds it.
//!
//! The volume's streaming system loads the chunks around one world-space
//! point, its anchor. Once per frame the synchronizer copies the character's
//! position into that point. It relays between exactly one character and
//! exactly one volume, and refuses any other count rather than pick one.

use bevy::math::Vec3;
use vstd::prelude::*;

verus! {

/// `bevy::math::Vec3`: a point or direction in world space, three floating
/// point coordinates. The library carries such values and never looks
/// inside them.
#[verifier::external_type_specification]
#[verifier::external_body]
pub struct ExVec3(Vec3);

/// The character's transform as far as the wiring reads it.
#[derive(Clone, Copy, Debug, PartialEq)]
pub struct CharacterAnchor {
    /// Where the character stands.
    pub position: Vec3,
    /// Where the character looks.
    pub look_direction: Vec3,
}

/// The field of a streamed volume that the wiring writes.
#[derive(Clone, Copy, Debug, PartialEq)]
pub struct StreamedVolumeAnchor {
    /// The point around which the volume keeps its chunks resident.
    pub streaming_pos: Vec3,
}

/// A count of characters or volumes that the synchronizer refuses. Each is
/// a broken invariant of the program, fatal to it.
#[derive(Clone, Copy, Debug, PartialEq, Eq, Structural)]
pub enum SyncError {
    /// There is no character.
    NoCharacter,
    /// There is more than one character.
    MultipleCharacters,
    /// There is no streamed volume.
    NoVolume,
    /// There is more than one streamed volume.
    MultipleVolumes,
}

/// What the synchronizer makes of `characters` characters and `volumes`
/// streamed volumes: it goes ahead with exactly one of each, and names the
/// first count that is off, the characters' before the volumes'.
pub open spec fn census(characters: nat, volumes: nat) -> Result<(), SyncError> {
    if characters == 0 {
        Err(SyncError::NoCharacter)
    } else if characters > 1 {
        Err(SyncError::MultipleCharacters)
    } else if volumes == 0 {
        Err(SyncError::NoVolume)
    } else if volumes > 1 {
        Err(SyncError::MultipleVolumes)
    } else {
        Ok(())
    }
}

impl StreamedVolumeAnchor {
    /// Copies the character's position into the anchor, unchanged.
    pub fn sync(&mut self, character_position: Vec3)
        ensures
            final(self).streaming_pos == character_position,
    {
        self.streaming_pos = character_position;
    }
}

/// Checks that there is exactly one character and exactly one streamed
/// volume.
pub fn check_census(characters: usize, volumes: usize) -> (checked: Result<(), SyncError>)
    ensures
        checked == census(characters as nat, volumes as nat),
        checked.is_ok() <==> characters == 1 && volumes == 1,
{
    if characters == 0 {
        Err(SyncError::NoCharacter)
    } else if characters > 1 {
        Err(SyncError::MultipleCharacters)
    } else if volumes == 0 {
        Err(SyncError::NoVolume)
    } else if volumes > 1 {
        Err(SyncError::MultipleVolumes)
    } else {
        Ok(())
    }
}

/// One frame of the synchronizer over all the characters and streamed
/// volumes that exist.
///
/// With exactly one of each, the volume's anchor takes the character's
/// position and nothing else changes. With any other count nothing changes
/// at all and the error says which count was off.
pub fn synchronize(
    characters: &Vec<CharacterAnchor>,
    volumes: &mut Vec<StreamedVolumeAnchor>,
) -> (synced: Result<(), SyncError>)
    ensures
        synced == census(characters@.len(), old(volumes)@.len()),
        synced.is_ok() ==> final(volumes)@ == seq![
            StreamedVolumeAnchor { streaming_pos: characters@[0].position },
        ],
        synced.is_err() ==> final(volumes)@ == old(volumes)@,
{
    match check_census(characters.len(), volumes.len()) {
        Ok(()) => {
            let position = characters[0].position;
            volumes[0].sync(position);
            assert(volumes@ =~= seq![StreamedVolumeAnchor { streaming_pos: position }]);
            Ok(())
        },
        Err(error) => Err(error),
    }
}

} // verus!
