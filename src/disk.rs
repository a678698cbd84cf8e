//! Disk identities, resolved from the operating system's description of a volume.

use vstd::prelude::*;

use crate::db_uuid::{hyphenated_upper, DbUuid};

verus! {

/// The name given to a volume whose description carries none.
pub const UNNAMED_VOLUME: &'static str = "Unnamed Volume";

/// The fields of a volume's description that resolution reads. Each is absent where
/// the description lacks it or holds a value of another type.
#[derive(Clone, Debug)]
pub struct DiskDescription {
    pub volume_uuid: Option<DbUuid>,
    pub volume_name: Option<String>,
    pub volume_path: Option<String>,
}

/// Why a disk could not be resolved.
#[derive(Clone, Copy, Debug, PartialEq, Eq, Structural)]
pub enum ResolutionError {
    /// The operating system gave no description of the disk.
    DescriptionUnavailable,
}

/// One snapshot of a disk: its stable UUID, its display name and its mount path.
/// Only the UUID takes part in policy decisions.
#[derive(Clone, Debug)]
pub struct Disk {
    pub name: String,
    pub path: Option<String>,
    pub uuid: DbUuid,
}

/// The UUID a description yields: its own, or the nil UUID.
pub open spec fn resolved_uuid(description: DiskDescription) -> Seq<u8> {
    match description.volume_uuid {
        Some(u) => u@,
        None => Seq::new(16, |i: int| 0u8),
    }
}

/// The name a description yields: its own, or the default name.
pub open spec fn resolved_name(description: DiskDescription) -> Seq<char> {
    match description.volume_name {
        Some(n) => n@,
        None => UNNAMED_VOLUME@,
    }
}

/// The path of a disk: the one the caller knows, else the description's.
pub open spec fn resolved_path(description: DiskDescription, volume_path: Option<String>) -> Option<
    Seq<char>,
> {
    match volume_path {
        Some(p) => Some(p@),
        None => match description.volume_path {
            Some(p) => Some(p@),
            None => None,
        },
    }
}

/// The path of a disk as text, if it has one.
pub open spec fn path_view(path: Option<String>) -> Option<Seq<char>> {
    match path {
        Some(p) => Some(p@),
        None => None,
    }
}

/// `disk` is what resolving `description` with `volume_path` gives.
pub open spec fn resolves_to(
    description: DiskDescription,
    volume_path: Option<String>,
    disk: Disk,
) -> bool {
    &&& disk.uuid@ == resolved_uuid(description)
    &&& disk.name@ == resolved_name(description)
    &&& path_view(disk.path) == resolved_path(description, volume_path)
}

/// The outcome of resolving an optional description.
pub open spec fn resolution_matches(
    description: Option<DiskDescription>,
    volume_path: Option<String>,
    r: Result<Disk, ResolutionError>,
) -> bool {
    match description {
        None => r == Err::<Disk, ResolutionError>(ResolutionError::DescriptionUnavailable),
        Some(d) => r matches Ok(disk) && resolves_to(d, volume_path, disk),
    }
}

/// The label of a disk in messages: its name, its UUID in parentheses, then its path
/// if it has one.
pub open spec fn disk_label(disk: Disk) -> Seq<char> {
    let head = disk.name@ + " ("@ + hyphenated_upper(disk.uuid@) + ")"@;
    match disk.path {
        Some(p) => head + " "@ + p@,
        None => head,
    }
}

/// A mounted volume as enumeration sees it: its description, if the operating system
/// gave one, and the path of its mount point, if known.
#[derive(Clone, Debug)]
pub struct MountedVolume {
    pub description: Option<DiskDescription>,
    pub mount_path: Option<String>,
}

impl Disk {
    /// Resolves a disk from its description, which it only borrows. Without a description this fails with
    /// `DescriptionUnavailable`; a missing UUID, name or path never fails: the UUID
    /// becomes nil, the name `UNNAMED_VOLUME`, and the path is taken from
    /// `volume_path` first, then from the description.
    pub fn from_ref(description: Option<&DiskDescription>, volume_path: Option<String>) -> (r:
        Result<Disk, ResolutionError>)
        ensures
            resolution_matches(
                match description {
                    Some(d) => Some(*d),
                    None => None,
                },
                volume_path,
                r,
            ),
    {
        let description = match description {
            Some(d) => d,
            None => {
                return Err(ResolutionError::DescriptionUnavailable);
            },
        };
        let name = match &description.volume_name {
            Some(n) => n.clone(),
            None => String::from_str(UNNAMED_VOLUME),
        };
        let path = match volume_path {
            Some(p) => Some(p),
            None => match &description.volume_path {
                Some(p) => Some(p.clone()),
                None => None,
            },
        };
        let uuid = match description.volume_uuid {
            Some(u) => u,
            None => DbUuid::nil(),
        };
        Ok(Disk { name, path, uuid })
    }

    /// The label of the disk, as `disk_label` gives it.
    pub fn label(&self) -> (r: String)
        ensures
            r@ == disk_label(*self),
    {
        let mut r = self.name.clone();
        r.append(" (");
        let uuid = self.uuid.to_hyphenated();
        r.append(uuid.as_str());
        r.append(")");
        if let Some(path) = &self.path {
            r.append(" ");
            r.append(path.as_str());
        }
        r
    }
}

/// Resolves every mounted volume, in order; a volume without a description gives
/// `DescriptionUnavailable` at its place and does not stop the others.
pub fn resolve_mounted(volumes: &Vec<MountedVolume>) -> (r: Vec<Result<Disk, ResolutionError>>)
    ensures
        r@.len() == volumes@.len(),
        forall|i: int|
            0 <= i < volumes@.len() ==> resolution_matches(
                #[trigger] volumes@[i].description,
                volumes@[i].mount_path,
                r@[i],
            ),
{
    let mut r: Vec<Result<Disk, ResolutionError>> = Vec::new();
    let mut i: usize = 0;
    while i < volumes.len()
        invariant
            i <= volumes@.len(),
            r@.len() == i,
            forall|j: int|
                0 <= j < i ==> resolution_matches(
                    #[trigger] volumes@[j].description,
                    volumes@[j].mount_path,
                    r@[j],
                ),
        decreases volumes@.len() - i,
    {
        let volume = &volumes[i];
        let mount_path = match &volume.mount_path {
            Some(p) => Some(p.clone()),
            None => None,
        };
        let disk = Disk::from_ref(volume.description.as_ref(), mount_path);
        r.push(disk);
        i = i + 1;
    }
    r
}

} // verus!
