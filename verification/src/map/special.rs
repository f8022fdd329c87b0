//! The special actions that a line or a thing can trigger.

use vstd::prelude::*;

verus! {

/// A special action, with its arguments by name.
///
/// The variants stand in the order in which the action table lists their codes.
#[derive(Clone, Copy, Debug, PartialEq, Eq, Structural, Hash)]
pub enum Special {
    Nothing,
    PolyobjStartLine { po: i16, mirror: i16, sound: i16 },
    PolyobjRotateLeft { po: i16, speed: i16, angle: i16 },
    PolyobjRotateRight { po: i16, speed: i16, angle: i16 },
    PolyobjMove { po: i16, speed: i16, angle: i16, dist: i16 },
    PolyobjExplicitLine { po: i16, order: i16, mirror: i16, sound: i16 },
    PolyobjMoveTimes8 { po: i16, speed: i16, angle: i16, dist: i16 },
    PolyobjDoorSwing { po: i16, speed: i16, angle: i16, delay: i16 },
    PolyobjDoorSlide { po: i16, speed: i16, angle: i16, dist: i16, delay: i16 },
    LineHorizon,
    DoorClose { tag: i16, speed: i16, light_tag: i16 },
    DoorOpen { tag: i16, speed: i16, light_tag: i16 },
    DoorRaise { tag: i16, speed: i16, delay: i16, light_tag: i16 },
    DoorRaiseLocked { tag: i16, speed: i16, delay: i16, lock: i16, lighttag: i16 },
    DoorAnimated { tag: i16, speed: i16, delay: i16, lock: i16 },
    Autosave,
    TransferWallLight { lineid: i16, flags: i16 },
    ThingRaise { tid: i16, nocheck: i16 },
    StartConversation { talker_tid: i16, facetalker: i16 },
    ThingStop { tid: i16 },
    FloorLowerByValue { tag: i16, speed: i16, height: i16 },
    FloorLowerToLowest { tag: i16, speed: i16 },
    FloorLowerToNearest { tag: i16, speed: i16 },
    FloorRaiseByValue { tag: i16, speed: i16, height: i16 },
    FloorRaiseToHighest { tag: i16, speed: i16 },
    FloorRaiseToNearest { tag: i16, speed: i16 },
    StairsBuildDown { tag: i16, speed: i16, height: i16, delay: i16, reset: i16 },
    StairsBuildUp { tag: i16, speed: i16, height: i16, delay: i16, reset: i16 },
    FloorRaiseAndCrush { tag: i16, speed: i16, crush: i16, crushmode: i16 },
    PillarBuild { tag: i16, speed: i16, height: i16 },
    PillarOpen { tag: i16, speed: i16, fdist: i16, cdist: i16 },
    StairsBuildDownSync { tag: i16, speed: i16, height: i16, reset: i16 },
    StairsBuildUpSync { tag: i16, speed: i16, height: i16, reset: i16 },
    ForceField,
    ClearForceField { tag: i16 },
    FloorRaiseByValueTimes8 { tag: i16, speed: i16, height: i16 },
    FloorLowerByValueTimes8 { tag: i16, speed: i16, height: i16 },
    FloorMoveToValue { tag: i16, speed: i16, height: i16, neg: i16 },
    CeilingWaggle { tag: i16, amp: i16, freq: i16, offset: i16, time: i16 },
    TeleportZombieChanger { tid: i16, tag: i16 },
    CeilingLowerByValue { tag: i16, speed: i16, height: i16 },
    CeilingRaiseByValue { tag: i16, speed: i16, height: i16 },
    CeilingCrushAndRaise { tag: i16, speed: i16, crush: i16, crushmode: i16 },
    CeilingLowerAndCrush { tag: i16, speed: i16, crush: i16, crushmode: i16 },
    CeilingCrushStop { tag: i16 },
    CeilingCrushRaiseAndStay { tag: i16, speed: i16, crush: i16, crushmode: i16 },
    FloorCrushStop { tag: i16 },
    CeilingMoveToValue { tag: i16, speed: i16, height: i16, neg: i16 },
    SectorAttach3dMidtex { lineid: i16, tag: i16, floororceiling: i16 },
    GlassBreak { dontspawnjunk: i16, _type: i16 },
    ExtraFloorLightOnly { tag: i16, _type: i16 },
    SectorSetLink { controltag: i16, tag: i16, surface: i16, _type: i16 },
    ScrollWall { lineid: i16, x: i16, y: i16, side: i16, flags: i16 },
    LineSetTextureOffset { lineid: i16, x: i16, y: i16, side: i16, flags: i16 },
    SectorChangeFlags { tag: i16, setflags: i16, clearflags: i16 },
    LineSetBlocking { lineid: i16, setflags: i16, clearflags: i16 },
    LineSetTextureScale { lineid: i16, x: i16, y: i16, side: i16, flags: i16 },
    SectorSetPortal { tag: i16, _type: i16, plane: i16, misc: i16, alpha: i16 },
    SectorCopyScroller { tag: i16, flags: i16 },
    PolyobjOrMoveToSpot { po: i16, speed: i16, target: i16 },
    PlatPerpetualRaise { tag: i16, speed: i16, delay: i16 },
    PlatStop { tag: i16 },
    PlatDownWaitUpStay { tag: i16, speed: i16, delay: i16 },
    PlatDownByValue { tag: i16, speed: i16, delay: i16, height: i16 },
    PlatUpWaitDownStay { tag: i16, speed: i16, delay: i16 },
    PlatUpByValue { tag: i16, speed: i16, delay: i16, height: i16 },
    FloorLowerInstant { tag: i16, arg1: i16, height: i16 },
    FloorRaiseInstant { tag: i16, arg1: i16, height: i16 },
    FloorMoveToValueTimes8 { tag: i16, speed: i16, height: i16, neg: i16 },
    CeilingMoveToValueTimes8 { tag: i16, speed: i16, height: i16, neg: i16 },
    Teleport { tid: i16, tag: i16, nosourcefog: i16 },
    TeleportNoFog { tid: i16, useangle: i16, tag: i16, keepheight: i16 },
    ThrustThing { angle: i16, force: i16, nolimit: i16, tid: i16 },
    DamageThing { amount: i16, _mod: i16 },
    TeleportNewMap { map: i16, pos: i16, face: i16 },
    TeleportEndGame,
    TeleportOther { tid: i16, destination: i16, fog: i16 },
    TeleportGroup { tid: i16, source: i16, destination: i16, movesource: i16, fog: i16 },
    TeleportInSector { tag: i16, source_tid: i16, dest_tid: i16, fog: i16, group_tid: i16 },
    ThingSetConversation { tid: i16, convid: i16 },
    AcsExecute { script: i16, map: i16, s_arg1: i16, s_arg2: i16, s_arg3: i16 },
    AcsSuspend { script: i16, map: i16 },
    AcsTerminate { script: i16, map: i16 },
    AcsLockedExecute { script: i16, map: i16, s_arg1: i16, s_arg2: i16, lock: i16 },
    AcsExecuteWithResult { script: i16, s_arg1: i16, s_arg2: i16, s_arg3: i16, s_arg4: i16 },
    AcsLockedExecuteDoor { script: i16, map: i16, s_arg1: i16, s_arg2: i16, lock: i16 },
    PolyobjMoveToSpot { po: i16, speed: i16, target: i16 },
    PolyobjStop { po: i16 },
    PolyobjMoveTo { po: i16, speed: i16, pos_x: i16, pos_y: i16 },
    PolyobjOrMoveTo { po: i16, speed: i16, pos_x: i16, pos_y: i16 },
    PolyobjOrRotateLeft { po: i16, speed: i16, angle: i16 },
    PolyobjOrRotateRight { po: i16, speed: i16, angle: i16 },
    PolyobjOrMove { po: i16, speed: i16, angle: i16, dist: i16 },
    PolyobjOrMoveTimes8 { po: i16, speed: i16, angle: i16, dist: i16 },
    PillarBuildAndCrush { tag: i16, speed: i16, height: i16, crush: i16, crushmode: i16 },
    FloorAndCeilingLowerByValue { tag: i16, speed: i16, value: i16 },
    FloorAndCeilingRaiseByValue { tag: i16, speed: i16, value: i16 },
    CeilingLowerAndCrushDist { tag: i16, speed: i16, crush: i16, dist: i16, crushmode: i16 },
    SectorSetTranslucent { tag: i16, plane: i16, amount: i16, _type: i16 },
    FloorRaiseAndCrushDoom { tag: i16, speed: i16, crush: i16, crushmode: i16 },
    ScrollTextureLeft { speed: i16, flags: i16 },
    ScrollTextureRight { speed: i16, flags: i16 },
    ScrollTextureUp { speed: i16, flags: i16 },
    ScrollTextureDown { speed: i16, flags: i16 },
    CeilingCrushAndRaiseSilentDist { tag: i16, dist: i16, speed: i16, crush: i16, crushmode: i16 },
    DoorWaitRaise { tag: i16, speed: i16, delay: i16, wait: i16, lighttag: i16 },
    DoorWaitClose { tag: i16, speed: i16, wait: i16, lighttag: i16 },
    LineSetPortalTarget { sourceline: i16, targetline: i16 },
    LightForceLightning { mode: i16 },
    LightRaiseByValue { tag: i16, value: i16 },
    LightLowerByValue { tag: i16, value: i16 },
    LightChangeToValue { tag: i16, value: i16 },
    LightFade { tag: i16, value: i16, tics: i16 },
    LightGlow { tag: i16, upper: i16, lower: i16, tics: i16 },
    LightFlicker { tag: i16, upper: i16, lower: i16 },
    LightStrobe { tag: i16, upper: i16, lower: i16, u_tics: i16, i_tics: i16 },
    LightStop { tag: i16 },
    PlaneCopy { front_floor: i16, front_ceiling: i16, back_floor: i16, back_ceiling: i16, share: i16 },
    ThingDamage { tid: i16, amount: i16, _mod: i16 },
    RadiusQuake { intensity: i16, duration: i16, damrad: i16, temrad: i16, tid: i16 },
    LineSetIdentification { lineid: i16, moreflags: i16, lineid_hi: i16 },
    ThingMove { tid: i16, destid: i16, nofog: i16 },
    ThingSetSpecial { tid: i16, special: i16, arg0: i16, arg1: i16, arg2: i16 },
    ThrustThingZ { tid: i16, force: i16, updown: i16, setadd: i16 },
    UsePuzzleItem { item: i16, script: i16, s_arg1: i16, s_arg2: i16, s_arg3: i16 },
    ThingActivate { tid: i16 },
    ThingDeactivate { tid: i16 },
    ThingRemove { tid: i16 },
    ThingDestroy { tid: i16, extreme: i16, tag: i16 },
    ThingProjectile { tid: i16, _type: i16, angle: i16, speed: i16, vspeed: i16 },
    ThingSpawn { tid: i16, _type: i16, angle: i16, newtid: i16 },
    ThingProjectileGravity { tid: i16, _type: i16, angle: i16, speed: i16, vspeed: i16 },
    ThingSpawnNoFog { tid: i16, _type: i16, angle: i16, newtid: i16 },
    FloorWaggle { tag: i16, amp: i16, freq: i16, offset: i16, time: i16 },
    ThingSpawnFacing { tid: i16, _type: i16, nofog: i16, newtid: i16 },
    SectorChangeSound { tag: i16, newsequence: i16 },
    PlayerSetTeam { team: i16 },
    TeamScore { points: i16, nogrin: i16 },
    TeamGivePoints { team: i16, points: i16, announce: i16 },
    TeleportNoStop { tid: i16, sectortag: i16, nofog: i16 },
    LineSetPortal { targetline: i16, thisline: i16, _type: i16, planeanchor: i16 },
    SetGlobalFogParameter { property: i16, value: i16 },
    FsExecute { scriptnumber: i16, side: i16, keynum: i16, message: i16 },
    SectorSetPlaneReflection { tag: i16, floor: i16, ceiling: i16 },
    SectorSet3dFloor { tag: i16, _type: i16, flags: i16, alpha: i16, hitag_lineid: i16 },
    SectorSetContents { _type: i16, translucency: i16, flags: i16 },
    CeilingCrushAndRaiseDist { tag: i16, dist: i16, speed: i16, crush: i16, crushmode: i16 },
    GenericCrusher2 { tag: i16, dspeed: i16, uspeed: i16, silent: i16, crush: i16 },
    SectorSetCeilingScale2 { tag: i16, u_fixed: i16, v_fixed: i16 },
    SectorSetFloorScale2 { tag: i16, u_fixed: i16, v_fixed: i16 },
    PlatUpNearestWaitDownStay { tag: i16, speed: i16, delay: i16 },
    NoiseAlert { target_tid: i16, emitter_tid: i16 },
    SendToCommunicator { voc_id: i16, front_only: i16, identify: i16, nolog: i16 },
    ThingProjectileIntercept { tid: i16, _type: i16, speed: i16, target: i16, newtid: i16 },
    ThingChangeTid { oldtid: i16, newtid: i16 },
    ThingHate { hater: i16, hatee: i16, _type: i16 },
    ThingProjectileAimed { tid: i16, _type: i16, speed: i16, target: i16, newtid: i16 },
    ChangeSkill { skill: i16 },
    ThingSetTranslation { tid: i16, translation: i16 },
    PlaneAlign { floor: i16, ceiling: i16, lineid: i16 },
    LineMirror,
    LineAlignCeiling { lineid: i16, side: i16 },
    LineAlignFloor { lineid: i16, side: i16 },
    SectorSetRotation { tag: i16, floor: i16, ceiling: i16 },
    SectorSetCeilingPanning { tag: i16, u_int: i16, u_frac: i16, v_int: i16, v_frac: i16 },
    SectorSetFloorPanning { tag: i16, u_int: i16, u_frac: i16, v_int: i16, v_frac: i16 },
    SectorSetCeilingScale { tag: i16, u_int: i16, u_frac: i16, v_int: i16, v_frac: i16 },
    SectorSetFloorScale { tag: i16, u_int: i16, u_frac: i16, v_int: i16, v_frac: i16 },
    StaticInit { tag: i16, prop: i16, flip_ceiling: i16, movetype: i16 },
    SetPlayerProperty { who: i16, set: i16, which: i16 },
    CeilingLowerToHighestFloor { tag: i16, speed: i16 },
    CeilingLowerInstant { tag: i16, arg1: i16, height: i16 },
    CeilingRaiseInstant { tag: i16, arg1: i16, height: i16 },
    CeilingCrushRaiseAndStayA { tag: i16, dspeed: i16, uspeed: i16, crush: i16, crushmode: i16 },
    CeilingCrushAndRaiseA { tag: i16, dspeed: i16, uspeed: i16, crush: i16, crushmode: i16 },
    CeilingCrushAndRaiseSilentA { tag: i16, dspeed: i16, uspeed: i16, crush: i16, crushmode: i16 },
    CeilingRaiseByValueTimes8 { tag: i16, speed: i16, height: i16 },
    CeilingLowerByValueTimes8 { tag: i16, speed: i16, height: i16 },
    GenericFloor { tag: i16, speed: i16, height: i16, target: i16, flags: i16 },
    GenericCeiling { tag: i16, speed: i16, height: i16, target: i16, flags: i16 },
    GenericDoor { tag: i16, speed: i16, kind: i16, delay: i16, lock: i16 },
    GenericLift { tag: i16, speed: i16, delay: i16, _type: i16, height: i16 },
    GenericStairs { tag: i16, speed: i16, height: i16, flags: i16, reset: i16 },
    GenericCrusher { tag: i16, dspeed: i16, uspeed: i16, silent: i16, crush: i16 },
    PlatDownWaitUpStayLip { tag: i16, speed: i16, delay: i16, lip: i16, sound: i16 },
    PlatPerpetualRaiseLip { tag: i16, speed: i16, delay: i16, lip: i16 },
    TranslucentLine { lineid: i16, amount: i16, additive: i16, moreflags: i16 },
    TransferHeights { tag: i16, flags: i16 },
    TransferFloorLight { tag: i16 },
    TransferCeilingLight { tag: i16 },
    SectorSetColor { tag: i16, r: i16, g: i16, b: i16, desat: i16 },
    SectorSetFade { tag: i16, r: i16, g: i16, b: i16 },
    SectorSetDamage { tag: i16, amount: i16, _mod: i16, interval: i16, leaky: i16 },
    TeleportLine { thisid: i16, destid: i16, flip: i16 },
    SectorSetGravity { tag: i16, ipart: i16, fpart: i16 },
    StairsBuildUpDoom { tag: i16, speed: i16, height: i16, delay: i16, reset: i16 },
    SectorSetWind { tag: i16, amount: i16, angle: i16, useline: i16 },
    SectorSetFriction { tag: i16, amount: i16 },
    SectorSetCurrent { tag: i16, amount: i16, angle: i16, useline: i16 },
    ScrollTextureBoth { lineid: i16, left: i16, right: i16, down: i16, up: i16 },
    ScrollTextureModel { lineid: i16, scrollbits: i16 },
    ScrollFloor { tag: i16, scrollbits: i16, _type: i16, x_move: i16, y_move: i16 },
    ScrollCeiling { tag: i16, scrollbits: i16, unused: i16, x_move: i16, y_move: i16 },
    ScrollTextureOffsets { flags: i16 },
    AcsExecuteAlways { script: i16, map: i16, s_arg1: i16, s_arg2: i16, s_arg3: i16 },
    PointPushSetForce { tag: i16, tid: i16, amount: i16, useline: i16 },
    PlatRaiseAndStayTx0 { tag: i16, speed: i16, lockout: i16 },
    ThingSetGoal { tid: i16, goal: i16, delay: i16, dontchasetarget: i16 },
    PlatUpByValueStayTx { tag: i16, speed: i16, height: i16 },
    PlatToggleCeiling { tag: i16 },
    LightStrobeDoom { tag: i16, u_tics: i16, i_tics: i16 },
    LightMinNeighbor { tag: i16 },
    LightMaxNeighbor { tag: i16 },
    FloorTransferTrigger { tag: i16 },
    FloorTransferNumeric { tag: i16 },
    ChangeCamera { tid: i16, who: i16, revert: i16 },
    FloorRaiseToLowestCeiling { tag: i16, speed: i16 },
    FloorRaiseByValueTxTy { tag: i16, speed: i16, height: i16 },
    FloorRaiseByTexture { tag: i16, speed: i16 },
    FloorLowerToLowestTxTy { tag: i16, speed: i16 },
    FloorLowerToHighest { tag: i16, speed: i16, adjust: i16, force_adjust: i16 },
    ExitNormal { pos: i16 },
    ExitSecret { pos: i16 },
    ElevatorRaiseToNearest { tag: i16, speed: i16 },
    ElevatorMoveToFloor { tag: i16, speed: i16 },
    ElevatorLowerToNearest { tag: i16, speed: i16 },
    HealThing { amount: i16, max: i16 },
    DoorCloseWaitOpen { tag: i16, speed: i16, delay: i16, lighttag: i16 },
    FloorDonut { ptag: i16, pspeed: i16, sspeed: i16 },
    FloorAndCeilingLowerRaise { tag: i16, fspeed: i16, cspeed: i16, boomemu: i16 },
    CeilingRaiseToNearest { tag: i16, speed: i16 },
    CeilingLowerToLowest { tag: i16, speed: i16 },
    CeilingLowerToFloor { tag: i16, speed: i16 },
    CeilingCrushRaiseAndStaySilA { tag: i16, dspeed: i16, uspeed: i16, crush: i16, crusmode: i16 },
    FloorLowerToHighestEE { tag: i16, speed: i16, change: i16 },
    FloorRaiseToLowest { tag: i16, change: i16, crush: i16 },
    FloorLowerToLowestCeiling { tag: i16, speed: i16, change: i16 },
    FloorRaiseToCeiling { tag: i16, speed: i16, change: i16, crush: i16, gap: i16 },
    FloorToCeilingInstant { tag: i16, change: i16, crush: i16, gap: i16 },
    FloorLowerByTexture { tag: i16, speed: i16, change: i16, crush: i16 },
    CeilingRaiseToHighest { tag: i16, speed: i16, change: i16 },
    CeilingToHighestInstant { tag: i16, change: i16, crush: i16 },
    CeilingLowerToNearest { tag: i16, speed: i16, change: i16, crush: i16 },
    CeilingRaiseToLowest { tag: i16, speed: i16, change: i16 },
    CeilingRaiseToHighestFloor { tag: i16, speed: i16, change: i16 },
    CeilingToFloorInstant { tag: i16, change: i16, crush: i16, gap: i16 },
    CeilingRaiseByTexture { tag: i16, speed: i16, change: i16 },
    CeilingLowerByTexture { tag: i16, speed: i16, change: i16, crush: i16 },
    StairsBuildDownDoom { tag: i16, speed: i16, height: i16, delay: i16, reset: i16 },
    StairsBuildUpDoomSync { tag: i16, speed: i16, height: i16, reset: i16 },
    StairsBuildDownDoomSync { tag: i16, speed: i16, height: i16, reset: i16 },
    StairsBuildUpDoomCrush { tag: i16, speed: i16, height: i16, delay: i16, reset: i16 },
    DoorAnmatedClose { tag: i16, speed: i16 },
    FloorStop { tag: i16 },
    CeilingStop { tag: i16 },
    SectorSetFloorGlow { tag: i16, height: i16, r: i16, g: i16, b: i16 },
    SectorSetCeilingGlow { tag: i16, height: i16, r: i16, g: i16, b: i16 },
    FloorMoveToValueAndCrush { tag: i16, speed: i16, height: i16, crush: i16, crushmode: i16 },
    CeilingMoveToValueAndCrush { tag: i16, speed: i16, height: i16, crush: i16, crushmode: i16 },
}

/// The number of variants of [`Special`].
pub const SPECIAL_COUNT: usize = 259;

/// How many arguments each variant of [`Special`] has, by the variant's index.
pub const ARG_COUNTS: [u8; 259] = [
    0, 3, 3, 3, 4, 4, 4, 4, 5, 0, 3, 3, 4, 5, 4, 0, 2, 2, 2, 1,
    3, 2, 2, 3, 2, 2, 5, 5, 4, 3, 4, 4, 4, 0, 1, 3, 3, 4, 5, 2,
    3, 3, 4, 4, 1, 4, 1, 4, 3, 2, 2, 4, 5, 5, 3, 3, 5, 5, 2, 3,
    3, 1, 3, 4, 3, 4, 3, 3, 4, 4, 3, 4, 4, 2, 3, 0, 3, 5, 5, 2,
    5, 2, 2, 5, 5, 5, 3, 1, 4, 4, 3, 3, 4, 4, 5, 3, 3, 5, 4, 4,
    2, 2, 2, 2, 5, 5, 4, 2, 1, 2, 2, 2, 3, 4, 3, 5, 1, 5, 3, 5,
    3, 3, 5, 4, 5, 1, 1, 1, 3, 5, 4, 5, 4, 5, 4, 2, 1, 2, 3, 3,
    4, 2, 4, 3, 5, 3, 5, 5, 3, 3, 3, 2, 4, 5, 2, 3, 5, 1, 2, 3,
    0, 2, 2, 3, 5, 5, 5, 5, 4, 3, 2, 3, 3, 5, 5, 5, 3, 3, 5, 5,
    5, 5, 5, 5, 5, 4, 4, 2, 1, 1, 5, 4, 5, 3, 3, 5, 4, 2, 4, 5,
    2, 5, 5, 1, 5, 4, 3, 4, 3, 1, 3, 1, 1, 1, 1, 3, 2, 3, 2, 2,
    4, 1, 1, 2, 2, 2, 2, 4, 3, 4, 2, 2, 2, 5, 3, 3, 3, 5, 4, 4,
    3, 3, 4, 3, 3, 4, 3, 4, 5, 4, 4, 5, 2, 1, 1, 5, 5, 5, 5,
];

impl Default for Special {
    fn default() -> (s: Self)
        ensures
            s == Special::Nothing,
    {
        Special::Nothing
    }
}

impl Special {
    /// The place of the variant in the declaration of [`Special`], counted from zero.
    pub open spec fn index_spec(self) -> nat {
        match self {
            Special::Nothing => 0,
            Special::PolyobjStartLine { .. } => 1,
            Special::PolyobjRotateLeft { .. } => 2,
            Special::PolyobjRotateRight { .. } => 3,
            Special::PolyobjMove { .. } => 4,
            Special::PolyobjExplicitLine { .. } => 5,
            Special::PolyobjMoveTimes8 { .. } => 6,
            Special::PolyobjDoorSwing { .. } => 7,
            Special::PolyobjDoorSlide { .. } => 8,
            Special::LineHorizon => 9,
            Special::DoorClose { .. } => 10,
            Special::DoorOpen { .. } => 11,
            Special::DoorRaise { .. } => 12,
            Special::DoorRaiseLocked { .. } => 13,
            Special::DoorAnimated { .. } => 14,
            Special::Autosave => 15,
            Special::TransferWallLight { .. } => 16,
            Special::ThingRaise { .. } => 17,
            Special::StartConversation { .. } => 18,
            Special::ThingStop { .. } => 19,
            Special::FloorLowerByValue { .. } => 20,
            Special::FloorLowerToLowest { .. } => 21,
            Special::FloorLowerToNearest { .. } => 22,
            Special::FloorRaiseByValue { .. } => 23,
            Special::FloorRaiseToHighest { .. } => 24,
            Special::FloorRaiseToNearest { .. } => 25,
            Special::StairsBuildDown { .. } => 26,
            Special::StairsBuildUp { .. } => 27,
            Special::FloorRaiseAndCrush { .. } => 28,
            Special::PillarBuild { .. } => 29,
            Special::PillarOpen { .. } => 30,
            Special::StairsBuildDownSync { .. } => 31,
            Special::StairsBuildUpSync { .. } => 32,
            Special::ForceField => 33,
            Special::ClearForceField { .. } => 34,
            Special::FloorRaiseByValueTimes8 { .. } => 35,
            Special::FloorLowerByValueTimes8 { .. } => 36,
            Special::FloorMoveToValue { .. } => 37,
            Special::CeilingWaggle { .. } => 38,
            Special::TeleportZombieChanger { .. } => 39,
            Special::CeilingLowerByValue { .. } => 40,
            Special::CeilingRaiseByValue { .. } => 41,
            Special::CeilingCrushAndRaise { .. } => 42,
            Special::CeilingLowerAndCrush { .. } => 43,
            Special::CeilingCrushStop { .. } => 44,
            Special::CeilingCrushRaiseAndStay { .. } => 45,
            Special::FloorCrushStop { .. } => 46,
            Special::CeilingMoveToValue { .. } => 47,
            Special::SectorAttach3dMidtex { .. } => 48,
            Special::GlassBreak { .. } => 49,
            Special::ExtraFloorLightOnly { .. } => 50,
            Special::SectorSetLink { .. } => 51,
            Special::ScrollWall { .. } => 52,
            Special::LineSetTextureOffset { .. } => 53,
            Special::SectorChangeFlags { .. } => 54,
            Special::LineSetBlocking { .. } => 55,
            Special::LineSetTextureScale { .. } => 56,
            Special::SectorSetPortal { .. } => 57,
            Special::SectorCopyScroller { .. } => 58,
            Special::PolyobjOrMoveToSpot { .. } => 59,
            Special::PlatPerpetualRaise { .. } => 60,
            Special::PlatStop { .. } => 61,
            Special::PlatDownWaitUpStay { .. } => 62,
            Special::PlatDownByValue { .. } => 63,
            Special::PlatUpWaitDownStay { .. } => 64,
            Special::PlatUpByValue { .. } => 65,
            Special::FloorLowerInstant { .. } => 66,
            Special::FloorRaiseInstant { .. } => 67,
            Special::FloorMoveToValueTimes8 { .. } => 68,
            Special::CeilingMoveToValueTimes8 { .. } => 69,
            Special::Teleport { .. } => 70,
            Special::TeleportNoFog { .. } => 71,
            Special::ThrustThing { .. } => 72,
            Special::DamageThing { .. } => 73,
            Special::TeleportNewMap { .. } => 74,
            Special::TeleportEndGame => 75,
            Special::TeleportOther { .. } => 76,
            Special::TeleportGroup { .. } => 77,
            Special::TeleportInSector { .. } => 78,
            Special::ThingSetConversation { .. } => 79,
            Special::AcsExecute { .. } => 80,
            Special::AcsSuspend { .. } => 81,
            Special::AcsTerminate { .. } => 82,
            Special::AcsLockedExecute { .. } => 83,
            Special::AcsExecuteWithResult { .. } => 84,
            Special::AcsLockedExecuteDoor { .. } => 85,
            Special::PolyobjMoveToSpot { .. } => 86,
            Special::PolyobjStop { .. } => 87,
            Special::PolyobjMoveTo { .. } => 88,
            Special::PolyobjOrMoveTo { .. } => 89,
            Special::PolyobjOrRotateLeft { .. } => 90,
            Special::PolyobjOrRotateRight { .. } => 91,
            Special::PolyobjOrMove { .. } => 92,
            Special::PolyobjOrMoveTimes8 { .. } => 93,
            Special::PillarBuildAndCrush { .. } => 94,
            Special::FloorAndCeilingLowerByValue { .. } => 95,
            Special::FloorAndCeilingRaiseByValue { .. } => 96,
            Special::CeilingLowerAndCrushDist { .. } => 97,
            Special::SectorSetTranslucent { .. } => 98,
            Special::FloorRaiseAndCrushDoom { .. } => 99,
            Special::ScrollTextureLeft { .. } => 100,
            Special::ScrollTextureRight { .. } => 101,
            Special::ScrollTextureUp { .. } => 102,
            Special::ScrollTextureDown { .. } => 103,
            Special::CeilingCrushAndRaiseSilentDist { .. } => 104,
            Special::DoorWaitRaise { .. } => 105,
            Special::DoorWaitClose { .. } => 106,
            Special::LineSetPortalTarget { .. } => 107,
            Special::LightForceLightning { .. } => 108,
            Special::LightRaiseByValue { .. } => 109,
            Special::LightLowerByValue { .. } => 110,
            Special::LightChangeToValue { .. } => 111,
            Special::LightFade { .. } => 112,
            Special::LightGlow { .. } => 113,
            Special::LightFlicker { .. } => 114,
            Special::LightStrobe { .. } => 115,
            Special::LightStop { .. } => 116,
            Special::PlaneCopy { .. } => 117,
            Special::ThingDamage { .. } => 118,
            Special::RadiusQuake { .. } => 119,
            Special::LineSetIdentification { .. } => 120,
            Special::ThingMove { .. } => 121,
            Special::ThingSetSpecial { .. } => 122,
            Special::ThrustThingZ { .. } => 123,
            Special::UsePuzzleItem { .. } => 124,
            Special::ThingActivate { .. } => 125,
            Special::ThingDeactivate { .. } => 126,
            Special::ThingRemove { .. } => 127,
            Special::ThingDestroy { .. } => 128,
            Special::ThingProjectile { .. } => 129,
            Special::ThingSpawn { .. } => 130,
            Special::ThingProjectileGravity { .. } => 131,
            Special::ThingSpawnNoFog { .. } => 132,
            Special::FloorWaggle { .. } => 133,
            Special::ThingSpawnFacing { .. } => 134,
            Special::SectorChangeSound { .. } => 135,
            Special::PlayerSetTeam { .. } => 136,
            Special::TeamScore { .. } => 137,
            Special::TeamGivePoints { .. } => 138,
            Special::TeleportNoStop { .. } => 139,
            Special::LineSetPortal { .. } => 140,
            Special::SetGlobalFogParameter { .. } => 141,
            Special::FsExecute { .. } => 142,
            Special::SectorSetPlaneReflection { .. } => 143,
            Special::SectorSet3dFloor { .. } => 144,
            Special::SectorSetContents { .. } => 145,
            Special::CeilingCrushAndRaiseDist { .. } => 146,
            Special::GenericCrusher2 { .. } => 147,
            Special::SectorSetCeilingScale2 { .. } => 148,
            Special::SectorSetFloorScale2 { .. } => 149,
            Special::PlatUpNearestWaitDownStay { .. } => 150,
            Special::NoiseAlert { .. } => 151,
            Special::SendToCommunicator { .. } => 152,
            Special::ThingProjectileIntercept { .. } => 153,
            Special::ThingChangeTid { .. } => 154,
            Special::ThingHate { .. } => 155,
            Special::ThingProjectileAimed { .. } => 156,
            Special::ChangeSkill { .. } => 157,
            Special::ThingSetTranslation { .. } => 158,
            Special::PlaneAlign { .. } => 159,
            Special::LineMirror => 160,
            Special::LineAlignCeiling { .. } => 161,
            Special::LineAlignFloor { .. } => 162,
            Special::SectorSetRotation { .. } => 163,
            Special::SectorSetCeilingPanning { .. } => 164,
            Special::SectorSetFloorPanning { .. } => 165,
            Special::SectorSetCeilingScale { .. } => 166,
            Special::SectorSetFloorScale { .. } => 167,
            Special::StaticInit { .. } => 168,
            Special::SetPlayerProperty { .. } => 169,
            Special::CeilingLowerToHighestFloor { .. } => 170,
            Special::CeilingLowerInstant { .. } => 171,
            Special::CeilingRaiseInstant { .. } => 172,
            Special::CeilingCrushRaiseAndStayA { .. } => 173,
            Special::CeilingCrushAndRaiseA { .. } => 174,
            Special::CeilingCrushAndRaiseSilentA { .. } => 175,
            Special::CeilingRaiseByValueTimes8 { .. } => 176,
            Special::CeilingLowerByValueTimes8 { .. } => 177,
            Special::GenericFloor { .. } => 178,
            Special::GenericCeiling { .. } => 179,
            Special::GenericDoor { .. } => 180,
            Special::GenericLift { .. } => 181,
            Special::GenericStairs { .. } => 182,
            Special::GenericCrusher { .. } => 183,
            Special::PlatDownWaitUpStayLip { .. } => 184,
            Special::PlatPerpetualRaiseLip { .. } => 185,
            Special::TranslucentLine { .. } => 186,
            Special::TransferHeights { .. } => 187,
            Special::TransferFloorLight { .. } => 188,
            Special::TransferCeilingLight { .. } => 189,
            Special::SectorSetColor { .. } => 190,
            Special::SectorSetFade { .. } => 191,
            Special::SectorSetDamage { .. } => 192,
            Special::TeleportLine { .. } => 193,
            Special::SectorSetGravity { .. } => 194,
            Special::StairsBuildUpDoom { .. } => 195,
            Special::SectorSetWind { .. } => 196,
            Special::SectorSetFriction { .. } => 197,
            Special::SectorSetCurrent { .. } => 198,
            Special::ScrollTextureBoth { .. } => 199,
            Special::ScrollTextureModel { .. } => 200,
            Special::ScrollFloor { .. } => 201,
            Special::ScrollCeiling { .. } => 202,
            Special::ScrollTextureOffsets { .. } => 203,
            Special::AcsExecuteAlways { .. } => 204,
            Special::PointPushSetForce { .. } => 205,
            Special::PlatRaiseAndStayTx0 { .. } => 206,
            Special::ThingSetGoal { .. } => 207,
            Special::PlatUpByValueStayTx { .. } => 208,
            Special::PlatToggleCeiling { .. } => 209,
            Special::LightStrobeDoom { .. } => 210,
            Special::LightMinNeighbor { .. } => 211,
            Special::LightMaxNeighbor { .. } => 212,
            Special::FloorTransferTrigger { .. } => 213,
            Special::FloorTransferNumeric { .. } => 214,
            Special::ChangeCamera { .. } => 215,
            Special::FloorRaiseToLowestCeiling { .. } => 216,
            Special::FloorRaiseByValueTxTy { .. } => 217,
            Special::FloorRaiseByTexture { .. } => 218,
            Special::FloorLowerToLowestTxTy { .. } => 219,
            Special::FloorLowerToHighest { .. } => 220,
            Special::ExitNormal { .. } => 221,
            Special::ExitSecret { .. } => 222,
            Special::ElevatorRaiseToNearest { .. } => 223,
            Special::ElevatorMoveToFloor { .. } => 224,
            Special::ElevatorLowerToNearest { .. } => 225,
            Special::HealThing { .. } => 226,
            Special::DoorCloseWaitOpen { .. } => 227,
            Special::FloorDonut { .. } => 228,
            Special::FloorAndCeilingLowerRaise { .. } => 229,
            Special::CeilingRaiseToNearest { .. } => 230,
            Special::CeilingLowerToLowest { .. } => 231,
            Special::CeilingLowerToFloor { .. } => 232,
            Special::CeilingCrushRaiseAndStaySilA { .. } => 233,
            Special::FloorLowerToHighestEE { .. } => 234,
            Special::FloorRaiseToLowest { .. } => 235,
            Special::FloorLowerToLowestCeiling { .. } => 236,
            Special::FloorRaiseToCeiling { .. } => 237,
            Special::FloorToCeilingInstant { .. } => 238,
            Special::FloorLowerByTexture { .. } => 239,
            Special::CeilingRaiseToHighest { .. } => 240,
            Special::CeilingToHighestInstant { .. } => 241,
            Special::CeilingLowerToNearest { .. } => 242,
            Special::CeilingRaiseToLowest { .. } => 243,
            Special::CeilingRaiseToHighestFloor { .. } => 244,
            Special::CeilingToFloorInstant { .. } => 245,
            Special::CeilingRaiseByTexture { .. } => 246,
            Special::CeilingLowerByTexture { .. } => 247,
            Special::StairsBuildDownDoom { .. } => 248,
            Special::StairsBuildUpDoomSync { .. } => 249,
            Special::StairsBuildDownDoomSync { .. } => 250,
            Special::StairsBuildUpDoomCrush { .. } => 251,
            Special::DoorAnmatedClose { .. } => 252,
            Special::FloorStop { .. } => 253,
            Special::CeilingStop { .. } => 254,
            Special::SectorSetFloorGlow { .. } => 255,
            Special::SectorSetCeilingGlow { .. } => 256,
            Special::FloorMoveToValueAndCrush { .. } => 257,
            Special::CeilingMoveToValueAndCrush { .. } => 258,
        }
    }

    /// The five argument slots: the arguments in their declared order, then zeros.
    pub open spec fn args_spec(self) -> Seq<i16> {
        match self {
            Special::Nothing => seq![0, 0, 0, 0, 0],
            Special::PolyobjStartLine { po, mirror, sound } => seq![po, mirror, sound, 0, 0],
            Special::PolyobjRotateLeft { po, speed, angle } => seq![po, speed, angle, 0, 0],
            Special::PolyobjRotateRight { po, speed, angle } => seq![po, speed, angle, 0, 0],
            Special::PolyobjMove { po, speed, angle, dist } => seq![po, speed, angle, dist, 0],
            Special::PolyobjExplicitLine { po, order, mirror, sound } => seq![po, order, mirror, sound, 0],
            Special::PolyobjMoveTimes8 { po, speed, angle, dist } => seq![po, speed, angle, dist, 0],
            Special::PolyobjDoorSwing { po, speed, angle, delay } => seq![po, speed, angle, delay, 0],
            Special::PolyobjDoorSlide { po, speed, angle, dist, delay } => seq![po, speed, angle, dist, delay],
            Special::LineHorizon => seq![0, 0, 0, 0, 0],
            Special::DoorClose { tag, speed, light_tag } => seq![tag, speed, light_tag, 0, 0],
            Special::DoorOpen { tag, speed, light_tag } => seq![tag, speed, light_tag, 0, 0],
            Special::DoorRaise { tag, speed, delay, light_tag } => seq![tag, speed, delay, light_tag, 0],
            Special::DoorRaiseLocked { tag, speed, delay, lock, lighttag } => seq![tag, speed, delay, lock, lighttag],
            Special::DoorAnimated { tag, speed, delay, lock } => seq![tag, speed, delay, lock, 0],
            Special::Autosave => seq![0, 0, 0, 0, 0],
            Special::TransferWallLight { lineid, flags } => seq![lineid, flags, 0, 0, 0],
            Special::ThingRaise { tid, nocheck } => seq![tid, nocheck, 0, 0, 0],
            Special::StartConversation { talker_tid, facetalker } => seq![talker_tid, facetalker, 0, 0, 0],
            Special::ThingStop { tid } => seq![tid, 0, 0, 0, 0],
            Special::FloorLowerByValue { tag, speed, height } => seq![tag, speed, height, 0, 0],
            Special::FloorLowerToLowest { tag, speed } => seq![tag, speed, 0, 0, 0],
            Special::FloorLowerToNearest { tag, speed } => seq![tag, speed, 0, 0, 0],
            Special::FloorRaiseByValue { tag, speed, height } => seq![tag, speed, height, 0, 0],
            Special::FloorRaiseToHighest { tag, speed } => seq![tag, speed, 0, 0, 0],
            Special::FloorRaiseToNearest { tag, speed } => seq![tag, speed, 0, 0, 0],
            Special::StairsBuildDown { tag, speed, height, delay, reset } => seq![tag, speed, height, delay, reset],
            Special::StairsBuildUp { tag, speed, height, delay, reset } => seq![tag, speed, height, delay, reset],
            Special::FloorRaiseAndCrush { tag, speed, crush, crushmode } => seq![tag, speed, crush, crushmode, 0],
            Special::PillarBuild { tag, speed, height } => seq![tag, speed, height, 0, 0],
            Special::PillarOpen { tag, speed, fdist, cdist } => seq![tag, speed, fdist, cdist, 0],
            Special::StairsBuildDownSync { tag, speed, height, reset } => seq![tag, speed, height, reset, 0],
            Special::StairsBuildUpSync { tag, speed, height, reset } => seq![tag, speed, height, reset, 0],
            Special::ForceField => seq![0, 0, 0, 0, 0],
            Special::ClearForceField { tag } => seq![tag, 0, 0, 0, 0],
            Special::FloorRaiseByValueTimes8 { tag, speed, height } => seq![tag, speed, height, 0, 0],
            Special::FloorLowerByValueTimes8 { tag, speed, height } => seq![tag, speed, height, 0, 0],
            Special::FloorMoveToValue { tag, speed, height, neg } => seq![tag, speed, height, neg, 0],
            Special::CeilingWaggle { tag, amp, freq, offset, time } => seq![tag, amp, freq, offset, time],
            Special::TeleportZombieChanger { tid, tag } => seq![tid, tag, 0, 0, 0],
            Special::CeilingLowerByValue { tag, speed, height } => seq![tag, speed, height, 0, 0],
            Special::CeilingRaiseByValue { tag, speed, height } => seq![tag, speed, height, 0, 0],
            Special::CeilingCrushAndRaise { tag, speed, crush, crushmode } => seq![tag, speed, crush, crushmode, 0],
            Special::CeilingLowerAndCrush { tag, speed, crush, crushmode } => seq![tag, speed, crush, crushmode, 0],
            Special::CeilingCrushStop { tag } => seq![tag, 0, 0, 0, 0],
            Special::CeilingCrushRaiseAndStay { tag, speed, crush, crushmode } => seq![tag, speed, crush, crushmode, 0],
            Special::FloorCrushStop { tag } => seq![tag, 0, 0, 0, 0],
            Special::CeilingMoveToValue { tag, speed, height, neg } => seq![tag, speed, height, neg, 0],
            Special::SectorAttach3dMidtex { lineid, tag, floororceiling } => seq![lineid, tag, floororceiling, 0, 0],
            Special::GlassBreak { dontspawnjunk, _type } => seq![dontspawnjunk, _type, 0, 0, 0],
            Special::ExtraFloorLightOnly { tag, _type } => seq![tag, _type, 0, 0, 0],
            Special::SectorSetLink { controltag, tag, surface, _type } => seq![controltag, tag, surface, _type, 0],
            Special::ScrollWall { lineid, x, y, side, flags } => seq![lineid, x, y, side, flags],
            Special::LineSetTextureOffset { lineid, x, y, side, flags } => seq![lineid, x, y, side, flags],
            Special::SectorChangeFlags { tag, setflags, clearflags } => seq![tag, setflags, clearflags, 0, 0],
            Special::LineSetBlocking { lineid, setflags, clearflags } => seq![lineid, setflags, clearflags, 0, 0],
            Special::LineSetTextureScale { lineid, x, y, side, flags } => seq![lineid, x, y, side, flags],
            Special::SectorSetPortal { tag, _type, plane, misc, alpha } => seq![tag, _type, plane, misc, alpha],
            Special::SectorCopyScroller { tag, flags } => seq![tag, flags, 0, 0, 0],
            Special::PolyobjOrMoveToSpot { po, speed, target } => seq![po, speed, target, 0, 0],
            Special::PlatPerpetualRaise { tag, speed, delay } => seq![tag, speed, delay, 0, 0],
            Special::PlatStop { tag } => seq![tag, 0, 0, 0, 0],
            Special::PlatDownWaitUpStay { tag, speed, delay } => seq![tag, speed, delay, 0, 0],
            Special::PlatDownByValue { tag, speed, delay, height } => seq![tag, speed, delay, height, 0],
            Special::PlatUpWaitDownStay { tag, speed, delay } => seq![tag, speed, delay, 0, 0],
            Special::PlatUpByValue { tag, speed, delay, height } => seq![tag, speed, delay, height, 0],
            Special::FloorLowerInstant { tag, arg1, height } => seq![tag, arg1, height, 0, 0],
            Special::FloorRaiseInstant { tag, arg1, height } => seq![tag, arg1, height, 0, 0],
            Special::FloorMoveToValueTimes8 { tag, speed, height, neg } => seq![tag, speed, height, neg, 0],
            Special::CeilingMoveToValueTimes8 { tag, speed, height, neg } => seq![tag, speed, height, neg, 0],
            Special::Teleport { tid, tag, nosourcefog } => seq![tid, tag, nosourcefog, 0, 0],
            Special::TeleportNoFog { tid, useangle, tag, keepheight } => seq![tid, useangle, tag, keepheight, 0],
            Special::ThrustThing { angle, force, nolimit, tid } => seq![angle, force, nolimit, tid, 0],
            Special::DamageThing { amount, _mod } => seq![amount, _mod, 0, 0, 0],
            Special::TeleportNewMap { map, pos, face } => seq![map, pos, face, 0, 0],
            Special::TeleportEndGame => seq![0, 0, 0, 0, 0],
            Special::TeleportOther { tid, destination, fog } => seq![tid, destination, fog, 0, 0],
            Special::TeleportGroup { tid, source, destination, movesource, fog } => seq![tid, source, destination, movesource, fog],
            Special::TeleportInSector { tag, source_tid, dest_tid, fog, group_tid } => seq![tag, source_tid, dest_tid, fog, group_tid],
            Special::ThingSetConversation { tid, convid } => seq![tid, convid, 0, 0, 0],
            Special::AcsExecute { script, map, s_arg1, s_arg2, s_arg3 } => seq![script, map, s_arg1, s_arg2, s_arg3],
            Special::AcsSuspend { script, map } => seq![script, map, 0, 0, 0],
            Special::AcsTerminate { script, map } => seq![script, map, 0, 0, 0],
            Special::AcsLockedExecute { script, map, s_arg1, s_arg2, lock } => seq![script, map, s_arg1, s_arg2, lock],
            Special::AcsExecuteWithResult { script, s_arg1, s_arg2, s_arg3, s_arg4 } => seq![script, s_arg1, s_arg2, s_arg3, s_arg4],
            Special::AcsLockedExecuteDoor { script, map, s_arg1, s_arg2, lock } => seq![script, map, s_arg1, s_arg2, lock],
            Special::PolyobjMoveToSpot { po, speed, target } => seq![po, speed, target, 0, 0],
            Special::PolyobjStop { po } => seq![po, 0, 0, 0, 0],
            Special::PolyobjMoveTo { po, speed, pos_x, pos_y } => seq![po, speed, pos_x, pos_y, 0],
            Special::PolyobjOrMoveTo { po, speed, pos_x, pos_y } => seq![po, speed, pos_x, pos_y, 0],
            Special::PolyobjOrRotateLeft { po, speed, angle } => seq![po, speed, angle, 0, 0],
            Special::PolyobjOrRotateRight { po, speed, angle } => seq![po, speed, angle, 0, 0],
            Special::PolyobjOrMove { po, speed, angle, dist } => seq![po, speed, angle, dist, 0],
            Special::PolyobjOrMoveTimes8 { po, speed, angle, dist } => seq![po, speed, angle, dist, 0],
            Special::PillarBuildAndCrush { tag, speed, height, crush, crushmode } => seq![tag, speed, height, crush, crushmode],
            Special::FloorAndCeilingLowerByValue { tag, speed, value } => seq![tag, speed, value, 0, 0],
            Special::FloorAndCeilingRaiseByValue { tag, speed, value } => seq![tag, speed, value, 0, 0],
            Special::CeilingLowerAndCrushDist { tag, speed, crush, dist, crushmode } => seq![tag, speed, crush, dist, crushmode],
            Special::SectorSetTranslucent { tag, plane, amount, _type } => seq![tag, plane, amount, _type, 0],
            Special::FloorRaiseAndCrushDoom { tag, speed, crush, crushmode } => seq![tag, speed, crush, crushmode, 0],
            Special::ScrollTextureLeft { speed, flags } => seq![speed, flags, 0, 0, 0],
            Special::ScrollTextureRight { speed, flags } => seq![speed, flags, 0, 0, 0],
            Special::ScrollTextureUp { speed, flags } => seq![speed, flags, 0, 0, 0],
            Special::ScrollTextureDown { speed, flags } => seq![speed, flags, 0, 0, 0],
            Special::CeilingCrushAndRaiseSilentDist { tag, dist, speed, crush, crushmode } => seq![tag, dist, speed, crush, crushmode],
            Special::DoorWaitRaise { tag, speed, delay, wait, lighttag } => seq![tag, speed, delay, wait, lighttag],
            Special::DoorWaitClose { tag, speed, wait, lighttag } => seq![tag, speed, wait, lighttag, 0],
            Special::LineSetPortalTarget { sourceline, targetline } => seq![sourceline, targetline, 0, 0, 0],
            Special::LightForceLightning { mode } => seq![mode, 0, 0, 0, 0],
            Special::LightRaiseByValue { tag, value } => seq![tag, value, 0, 0, 0],
            Special::LightLowerByValue { tag, value } => seq![tag, value, 0, 0, 0],
            Special::LightChangeToValue { tag, value } => seq![tag, value, 0, 0, 0],
            Special::LightFade { tag, value, tics } => seq![tag, value, tics, 0, 0],
            Special::LightGlow { tag, upper, lower, tics } => seq![tag, upper, lower, tics, 0],
            Special::LightFlicker { tag, upper, lower } => seq![tag, upper, lower, 0, 0],
            Special::LightStrobe { tag, upper, lower, u_tics, i_tics } => seq![tag, upper, lower, u_tics, i_tics],
            Special::LightStop { tag } => seq![tag, 0, 0, 0, 0],
            Special::PlaneCopy { front_floor, front_ceiling, back_floor, back_ceiling, share } => seq![front_floor, front_ceiling, back_floor, back_ceiling, share],
            Special::ThingDamage { tid, amount, _mod } => seq![tid, amount, _mod, 0, 0],
            Special::RadiusQuake { intensity, duration, damrad, temrad, tid } => seq![intensity, duration, damrad, temrad, tid],
            Special::LineSetIdentification { lineid, moreflags, lineid_hi } => seq![lineid, moreflags, lineid_hi, 0, 0],
            Special::ThingMove { tid, destid, nofog } => seq![tid, destid, nofog, 0, 0],
            Special::ThingSetSpecial { tid, special, arg0, arg1, arg2 } => seq![tid, special, arg0, arg1, arg2],
            Special::ThrustThingZ { tid, force, updown, setadd } => seq![tid, force, updown, setadd, 0],
            Special::UsePuzzleItem { item, script, s_arg1, s_arg2, s_arg3 } => seq![item, script, s_arg1, s_arg2, s_arg3],
            Special::ThingActivate { tid } => seq![tid, 0, 0, 0, 0],
            Special::ThingDeactivate { tid } => seq![tid, 0, 0, 0, 0],
            Special::ThingRemove { tid } => seq![tid, 0, 0, 0, 0],
            Special::ThingDestroy { tid, extreme, tag } => seq![tid, extreme, tag, 0, 0],
            Special::ThingProjectile { tid, _type, angle, speed, vspeed } => seq![tid, _type, angle, speed, vspeed],
            Special::ThingSpawn { tid, _type, angle, newtid } => seq![tid, _type, angle, newtid, 0],
            Special::ThingProjectileGravity { tid, _type, angle, speed, vspeed } => seq![tid, _type, angle, speed, vspeed],
            Special::ThingSpawnNoFog { tid, _type, angle, newtid } => seq![tid, _type, angle, newtid, 0],
            Special::FloorWaggle { tag, amp, freq, offset, time } => seq![tag, amp, freq, offset, time],
            Special::ThingSpawnFacing { tid, _type, nofog, newtid } => seq![tid, _type, nofog, newtid, 0],
            Special::SectorChangeSound { tag, newsequence } => seq![tag, newsequence, 0, 0, 0],
            Special::PlayerSetTeam { team } => seq![team, 0, 0, 0, 0],
            Special::TeamScore { points, nogrin } => seq![points, nogrin, 0, 0, 0],
            Special::TeamGivePoints { team, points, announce } => seq![team, points, announce, 0, 0],
            Special::TeleportNoStop { tid, sectortag, nofog } => seq![tid, sectortag, nofog, 0, 0],
            Special::LineSetPortal { targetline, thisline, _type, planeanchor } => seq![targetline, thisline, _type, planeanchor, 0],
            Special::SetGlobalFogParameter { property, value } => seq![property, value, 0, 0, 0],
            Special::FsExecute { scriptnumber, side, keynum, message } => seq![scriptnumber, side, keynum, message, 0],
            Special::SectorSetPlaneReflection { tag, floor, ceiling } => seq![tag, floor, ceiling, 0, 0],
            Special::SectorSet3dFloor { tag, _type, flags, alpha, hitag_lineid } => seq![tag, _type, flags, alpha, hitag_lineid],
            Special::SectorSetContents { _type, translucency, flags } => seq![_type, translucency, flags, 0, 0],
            Special::CeilingCrushAndRaiseDist { tag, dist, speed, crush, crushmode } => seq![tag, dist, speed, crush, crushmode],
            Special::GenericCrusher2 { tag, dspeed, uspeed, silent, crush } => seq![tag, dspeed, uspeed, silent, crush],
            Special::SectorSetCeilingScale2 { tag, u_fixed, v_fixed } => seq![tag, u_fixed, v_fixed, 0, 0],
            Special::SectorSetFloorScale2 { tag, u_fixed, v_fixed } => seq![tag, u_fixed, v_fixed, 0, 0],
            Special::PlatUpNearestWaitDownStay { tag, speed, delay } => seq![tag, speed, delay, 0, 0],
            Special::NoiseAlert { target_tid, emitter_tid } => seq![target_tid, emitter_tid, 0, 0, 0],
            Special::SendToCommunicator { voc_id, front_only, identify, nolog } => seq![voc_id, front_only, identify, nolog, 0],
            Special::ThingProjectileIntercept { tid, _type, speed, target, newtid } => seq![tid, _type, speed, target, newtid],
            Special::ThingChangeTid { oldtid, newtid } => seq![oldtid, newtid, 0, 0, 0],
            Special::ThingHate { hater, hatee, _type } => seq![hater, hatee, _type, 0, 0],
            Special::ThingProjectileAimed { tid, _type, speed, target, newtid } => seq![tid, _type, speed, target, newtid],
            Special::ChangeSkill { skill } => seq![skill, 0, 0, 0, 0],
            Special::ThingSetTranslation { tid, translation } => seq![tid, translation, 0, 0, 0],
            Special::PlaneAlign { floor, ceiling, lineid } => seq![floor, ceiling, lineid, 0, 0],
            Special::LineMirror => seq![0, 0, 0, 0, 0],
            Special::LineAlignCeiling { lineid, side } => seq![lineid, side, 0, 0, 0],
            Special::LineAlignFloor { lineid, side } => seq![lineid, side, 0, 0, 0],
            Special::SectorSetRotation { tag, floor, ceiling } => seq![tag, floor, ceiling, 0, 0],
            Special::SectorSetCeilingPanning { tag, u_int, u_frac, v_int, v_frac } => seq![tag, u_int, u_frac, v_int, v_frac],
            Special::SectorSetFloorPanning { tag, u_int, u_frac, v_int, v_frac } => seq![tag, u_int, u_frac, v_int, v_frac],
            Special::SectorSetCeilingScale { tag, u_int, u_frac, v_int, v_frac } => seq![tag, u_int, u_frac, v_int, v_frac],
            Special::SectorSetFloorScale { tag, u_int, u_frac, v_int, v_frac } => seq![tag, u_int, u_frac, v_int, v_frac],
            Special::StaticInit { tag, prop, flip_ceiling, movetype } => seq![tag, prop, flip_ceiling, movetype, 0],
            Special::SetPlayerProperty { who, set, which } => seq![who, set, which, 0, 0],
            Special::CeilingLowerToHighestFloor { tag, speed } => seq![tag, speed, 0, 0, 0],
            Special::CeilingLowerInstant { tag, arg1, height } => seq![tag, arg1, height, 0, 0],
            Special::CeilingRaiseInstant { tag, arg1, height } => seq![tag, arg1, height, 0, 0],
            Special::CeilingCrushRaiseAndStayA { tag, dspeed, uspeed, crush, crushmode } => seq![tag, dspeed, uspeed, crush, crushmode],
            Special::CeilingCrushAndRaiseA { tag, dspeed, uspeed, crush, crushmode } => seq![tag, dspeed, uspeed, crush, crushmode],
            Special::CeilingCrushAndRaiseSilentA { tag, dspeed, uspeed, crush, crushmode } => seq![tag, dspeed, uspeed, crush, crushmode],
            Special::CeilingRaiseByValueTimes8 { tag, speed, height } => seq![tag, speed, height, 0, 0],
            Special::CeilingLowerByValueTimes8 { tag, speed, height } => seq![tag, speed, height, 0, 0],
            Special::GenericFloor { tag, speed, height, target, flags } => seq![tag, speed, height, target, flags],
            Special::GenericCeiling { tag, speed, height, target, flags } => seq![tag, speed, height, target, flags],
            Special::GenericDoor { tag, speed, kind, delay, lock } => seq![tag, speed, kind, delay, lock],
            Special::GenericLift { tag, speed, delay, _type, height } => seq![tag, speed, delay, _type, height],
            Special::GenericStairs { tag, speed, height, flags, reset } => seq![tag, speed, height, flags, reset],
            Special::GenericCrusher { tag, dspeed, uspeed, silent, crush } => seq![tag, dspeed, uspeed, silent, crush],
            Special::PlatDownWaitUpStayLip { tag, speed, delay, lip, sound } => seq![tag, speed, delay, lip, sound],
            Special::PlatPerpetualRaiseLip { tag, speed, delay, lip } => seq![tag, speed, delay, lip, 0],
            Special::TranslucentLine { lineid, amount, additive, moreflags } => seq![lineid, amount, additive, moreflags, 0],
            Special::TransferHeights { tag, flags } => seq![tag, flags, 0, 0, 0],
            Special::TransferFloorLight { tag } => seq![tag, 0, 0, 0, 0],
            Special::TransferCeilingLight { tag } => seq![tag, 0, 0, 0, 0],
            Special::SectorSetColor { tag, r, g, b, desat } => seq![tag, r, g, b, desat],
            Special::SectorSetFade { tag, r, g, b } => seq![tag, r, g, b, 0],
            Special::SectorSetDamage { tag, amount, _mod, interval, leaky } => seq![tag, amount, _mod, interval, leaky],
            Special::TeleportLine { thisid, destid, flip } => seq![thisid, destid, flip, 0, 0],
            Special::SectorSetGravity { tag, ipart, fpart } => seq![tag, ipart, fpart, 0, 0],
            Special::StairsBuildUpDoom { tag, speed, height, delay, reset } => seq![tag, speed, height, delay, reset],
            Special::SectorSetWind { tag, amount, angle, useline } => seq![tag, amount, angle, useline, 0],
            Special::SectorSetFriction { tag, amount } => seq![tag, amount, 0, 0, 0],
            Special::SectorSetCurrent { tag, amount, angle, useline } => seq![tag, amount, angle, useline, 0],
            Special::ScrollTextureBoth { lineid, left, right, down, up } => seq![lineid, left, right, down, up],
            Special::ScrollTextureModel { lineid, scrollbits } => seq![lineid, scrollbits, 0, 0, 0],
            Special::ScrollFloor { tag, scrollbits, _type, x_move, y_move } => seq![tag, scrollbits, _type, x_move, y_move],
            Special::ScrollCeiling { tag, scrollbits, unused, x_move, y_move } => seq![tag, scrollbits, unused, x_move, y_move],
            Special::ScrollTextureOffsets { flags } => seq![flags, 0, 0, 0, 0],
            Special::AcsExecuteAlways { script, map, s_arg1, s_arg2, s_arg3 } => seq![script, map, s_arg1, s_arg2, s_arg3],
            Special::PointPushSetForce { tag, tid, amount, useline } => seq![tag, tid, amount, useline, 0],
            Special::PlatRaiseAndStayTx0 { tag, speed, lockout } => seq![tag, speed, lockout, 0, 0],
            Special::ThingSetGoal { tid, goal, delay, dontchasetarget } => seq![tid, goal, delay, dontchasetarget, 0],
            Special::PlatUpByValueStayTx { tag, speed, height } => seq![tag, speed, height, 0, 0],
            Special::PlatToggleCeiling { tag } => seq![tag, 0, 0, 0, 0],
            Special::LightStrobeDoom { tag, u_tics, i_tics } => seq![tag, u_tics, i_tics, 0, 0],
            Special::LightMinNeighbor { tag } => seq![tag, 0, 0, 0, 0],
            Special::LightMaxNeighbor { tag } => seq![tag, 0, 0, 0, 0],
            Special::FloorTransferTrigger { tag } => seq![tag, 0, 0, 0, 0],
            Special::FloorTransferNumeric { tag } => seq![tag, 0, 0, 0, 0],
            Special::ChangeCamera { tid, who, revert } => seq![tid, who, revert, 0, 0],
            Special::FloorRaiseToLowestCeiling { tag, speed } => seq![tag, speed, 0, 0, 0],
            Special::FloorRaiseByValueTxTy { tag, speed, height } => seq![tag, speed, height, 0, 0],
            Special::FloorRaiseByTexture { tag, speed } => seq![tag, speed, 0, 0, 0],
            Special::FloorLowerToLowestTxTy { tag, speed } => seq![tag, speed, 0, 0, 0],
            Special::FloorLowerToHighest { tag, speed, adjust, force_adjust } => seq![tag, speed, adjust, force_adjust, 0],
            Special::ExitNormal { pos } => seq![pos, 0, 0, 0, 0],
            Special::ExitSecret { pos } => seq![pos, 0, 0, 0, 0],
            Special::ElevatorRaiseToNearest { tag, speed } => seq![tag, speed, 0, 0, 0],
            Special::ElevatorMoveToFloor { tag, speed } => seq![tag, speed, 0, 0, 0],
            Special::ElevatorLowerToNearest { tag, speed } => seq![tag, speed, 0, 0, 0],
            Special::HealThing { amount, max } => seq![amount, max, 0, 0, 0],
            Special::DoorCloseWaitOpen { tag, speed, delay, lighttag } => seq![tag, speed, delay, lighttag, 0],
            Special::FloorDonut { ptag, pspeed, sspeed } => seq![ptag, pspeed, sspeed, 0, 0],
            Special::FloorAndCeilingLowerRaise { tag, fspeed, cspeed, boomemu } => seq![tag, fspeed, cspeed, boomemu, 0],
            Special::CeilingRaiseToNearest { tag, speed } => seq![tag, speed, 0, 0, 0],
            Special::CeilingLowerToLowest { tag, speed } => seq![tag, speed, 0, 0, 0],
            Special::CeilingLowerToFloor { tag, speed } => seq![tag, speed, 0, 0, 0],
            Special::CeilingCrushRaiseAndStaySilA { tag, dspeed, uspeed, crush, crusmode } => seq![tag, dspeed, uspeed, crush, crusmode],
            Special::FloorLowerToHighestEE { tag, speed, change } => seq![tag, speed, change, 0, 0],
            Special::FloorRaiseToLowest { tag, change, crush } => seq![tag, change, crush, 0, 0],
            Special::FloorLowerToLowestCeiling { tag, speed, change } => seq![tag, speed, change, 0, 0],
            Special::FloorRaiseToCeiling { tag, speed, change, crush, gap } => seq![tag, speed, change, crush, gap],
            Special::FloorToCeilingInstant { tag, change, crush, gap } => seq![tag, change, crush, gap, 0],
            Special::FloorLowerByTexture { tag, speed, change, crush } => seq![tag, speed, change, crush, 0],
            Special::CeilingRaiseToHighest { tag, speed, change } => seq![tag, speed, change, 0, 0],
            Special::CeilingToHighestInstant { tag, change, crush } => seq![tag, change, crush, 0, 0],
            Special::CeilingLowerToNearest { tag, speed, change, crush } => seq![tag, speed, change, crush, 0],
            Special::CeilingRaiseToLowest { tag, speed, change } => seq![tag, speed, change, 0, 0],
            Special::CeilingRaiseToHighestFloor { tag, speed, change } => seq![tag, speed, change, 0, 0],
            Special::CeilingToFloorInstant { tag, change, crush, gap } => seq![tag, change, crush, gap, 0],
            Special::CeilingRaiseByTexture { tag, speed, change } => seq![tag, speed, change, 0, 0],
            Special::CeilingLowerByTexture { tag, speed, change, crush } => seq![tag, speed, change, crush, 0],
            Special::StairsBuildDownDoom { tag, speed, height, delay, reset } => seq![tag, speed, height, delay, reset],
            Special::StairsBuildUpDoomSync { tag, speed, height, reset } => seq![tag, speed, height, reset, 0],
            Special::StairsBuildDownDoomSync { tag, speed, height, reset } => seq![tag, speed, height, reset, 0],
            Special::StairsBuildUpDoomCrush { tag, speed, height, delay, reset } => seq![tag, speed, height, delay, reset],
            Special::DoorAnmatedClose { tag, speed } => seq![tag, speed, 0, 0, 0],
            Special::FloorStop { tag } => seq![tag, 0, 0, 0, 0],
            Special::CeilingStop { tag } => seq![tag, 0, 0, 0, 0],
            Special::SectorSetFloorGlow { tag, height, r, g, b } => seq![tag, height, r, g, b],
            Special::SectorSetCeilingGlow { tag, height, r, g, b } => seq![tag, height, r, g, b],
            Special::FloorMoveToValueAndCrush { tag, speed, height, crush, crushmode } => seq![tag, speed, height, crush, crushmode],
            Special::CeilingMoveToValueAndCrush { tag, speed, height, crush, crushmode } => seq![tag, speed, height, crush, crushmode],
        }
    }

    /// The place of the variant in the declaration of [`Special`], counted from zero.
    pub fn index(&self) -> (i: usize)
        ensures
            i == self.index_spec(),
            i < SPECIAL_COUNT,
    {
        match *self {
            Special::Nothing => 0,
            Special::PolyobjStartLine { .. } => 1,
            Special::PolyobjRotateLeft { .. } => 2,
            Special::PolyobjRotateRight { .. } => 3,
            Special::PolyobjMove { .. } => 4,
            Special::PolyobjExplicitLine { .. } => 5,
            Special::PolyobjMoveTimes8 { .. } => 6,
            Special::PolyobjDoorSwing { .. } => 7,
            Special::PolyobjDoorSlide { .. } => 8,
            Special::LineHorizon => 9,
            Special::DoorClose { .. } => 10,
            Special::DoorOpen { .. } => 11,
            Special::DoorRaise { .. } => 12,
            Special::DoorRaiseLocked { .. } => 13,
            Special::DoorAnimated { .. } => 14,
            Special::Autosave => 15,
            Special::TransferWallLight { .. } => 16,
            Special::ThingRaise { .. } => 17,
            Special::StartConversation { .. } => 18,
            Special::ThingStop { .. } => 19,
            Special::FloorLowerByValue { .. } => 20,
            Special::FloorLowerToLowest { .. } => 21,
            Special::FloorLowerToNearest { .. } => 22,
            Special::FloorRaiseByValue { .. } => 23,
            Special::FloorRaiseToHighest { .. } => 24,
            Special::FloorRaiseToNearest { .. } => 25,
            Special::StairsBuildDown { .. } => 26,
            Special::StairsBuildUp { .. } => 27,
            Special::FloorRaiseAndCrush { .. } => 28,
            Special::PillarBuild { .. } => 29,
            Special::PillarOpen { .. } => 30,
            Special::StairsBuildDownSync { .. } => 31,
            Special::StairsBuildUpSync { .. } => 32,
            Special::ForceField => 33,
            Special::ClearForceField { .. } => 34,
            Special::FloorRaiseByValueTimes8 { .. } => 35,
            Special::FloorLowerByValueTimes8 { .. } => 36,
            Special::FloorMoveToValue { .. } => 37,
            Special::CeilingWaggle { .. } => 38,
            Special::TeleportZombieChanger { .. } => 39,
            Special::CeilingLowerByValue { .. } => 40,
            Special::CeilingRaiseByValue { .. } => 41,
            Special::CeilingCrushAndRaise { .. } => 42,
            Special::CeilingLowerAndCrush { .. } => 43,
            Special::CeilingCrushStop { .. } => 44,
            Special::CeilingCrushRaiseAndStay { .. } => 45,
            Special::FloorCrushStop { .. } => 46,
            Special::CeilingMoveToValue { .. } => 47,
            Special::SectorAttach3dMidtex { .. } => 48,
            Special::GlassBreak { .. } => 49,
            Special::ExtraFloorLightOnly { .. } => 50,
            Special::SectorSetLink { .. } => 51,
            Special::ScrollWall { .. } => 52,
            Special::LineSetTextureOffset { .. } => 53,
            Special::SectorChangeFlags { .. } => 54,
            Special::LineSetBlocking { .. } => 55,
            Special::LineSetTextureScale { .. } => 56,
            Special::SectorSetPortal { .. } => 57,
            Special::SectorCopyScroller { .. } => 58,
            Special::PolyobjOrMoveToSpot { .. } => 59,
            Special::PlatPerpetualRaise { .. } => 60,
            Special::PlatStop { .. } => 61,
            Special::PlatDownWaitUpStay { .. } => 62,
            Special::PlatDownByValue { .. } => 63,
            Special::PlatUpWaitDownStay { .. } => 64,
            Special::PlatUpByValue { .. } => 65,
            Special::FloorLowerInstant { .. } => 66,
            Special::FloorRaiseInstant { .. } => 67,
            Special::FloorMoveToValueTimes8 { .. } => 68,
            Special::CeilingMoveToValueTimes8 { .. } => 69,
            Special::Teleport { .. } => 70,
            Special::TeleportNoFog { .. } => 71,
            Special::ThrustThing { .. } => 72,
            Special::DamageThing { .. } => 73,
            Special::TeleportNewMap { .. } => 74,
            Special::TeleportEndGame => 75,
            Special::TeleportOther { .. } => 76,
            Special::TeleportGroup { .. } => 77,
            Special::TeleportInSector { .. } => 78,
            Special::ThingSetConversation { .. } => 79,
            Special::AcsExecute { .. } => 80,
            Special::AcsSuspend { .. } => 81,
            Special::AcsTerminate { .. } => 82,
            Special::AcsLockedExecute { .. } => 83,
            Special::AcsExecuteWithResult { .. } => 84,
            Special::AcsLockedExecuteDoor { .. } => 85,
            Special::PolyobjMoveToSpot { .. } => 86,
            Special::PolyobjStop { .. } => 87,
            Special::PolyobjMoveTo { .. } => 88,
            Special::PolyobjOrMoveTo { .. } => 89,
            Special::PolyobjOrRotateLeft { .. } => 90,
            Special::PolyobjOrRotateRight { .. } => 91,
            Special::PolyobjOrMove { .. } => 92,
            Special::PolyobjOrMoveTimes8 { .. } => 93,
            Special::PillarBuildAndCrush { .. } => 94,
            Special::FloorAndCeilingLowerByValue { .. } => 95,
            Special::FloorAndCeilingRaiseByValue { .. } => 96,
            Special::CeilingLowerAndCrushDist { .. } => 97,
            Special::SectorSetTranslucent { .. } => 98,
            Special::FloorRaiseAndCrushDoom { .. } => 99,
            Special::ScrollTextureLeft { .. } => 100,
            Special::ScrollTextureRight { .. } => 101,
            Special::ScrollTextureUp { .. } => 102,
            Special::ScrollTextureDown { .. } => 103,
            Special::CeilingCrushAndRaiseSilentDist { .. } => 104,
            Special::DoorWaitRaise { .. } => 105,
            Special::DoorWaitClose { .. } => 106,
            Special::LineSetPortalTarget { .. } => 107,
            Special::LightForceLightning { .. } => 108,
            Special::LightRaiseByValue { .. } => 109,
            Special::LightLowerByValue { .. } => 110,
            Special::LightChangeToValue { .. } => 111,
            Special::LightFade { .. } => 112,
            Special::LightGlow { .. } => 113,
            Special::LightFlicker { .. } => 114,
            Special::LightStrobe { .. } => 115,
            Special::LightStop { .. } => 116,
            Special::PlaneCopy { .. } => 117,
            Special::ThingDamage { .. } => 118,
            Special::RadiusQuake { .. } => 119,
            Special::LineSetIdentification { .. } => 120,
            Special::ThingMove { .. } => 121,
            Special::ThingSetSpecial { .. } => 122,
            Special::ThrustThingZ { .. } => 123,
            Special::UsePuzzleItem { .. } => 124,
            Special::ThingActivate { .. } => 125,
            Special::ThingDeactivate { .. } => 126,
            Special::ThingRemove { .. } => 127,
            Special::ThingDestroy { .. } => 128,
            Special::ThingProjectile { .. } => 129,
            Special::ThingSpawn { .. } => 130,
            Special::ThingProjectileGravity { .. } => 131,
            Special::ThingSpawnNoFog { .. } => 132,
            Special::FloorWaggle { .. } => 133,
            Special::ThingSpawnFacing { .. } => 134,
            Special::SectorChangeSound { .. } => 135,
            Special::PlayerSetTeam { .. } => 136,
            Special::TeamScore { .. } => 137,
            Special::TeamGivePoints { .. } => 138,
            Special::TeleportNoStop { .. } => 139,
            Special::LineSetPortal { .. } => 140,
            Special::SetGlobalFogParameter { .. } => 141,
            Special::FsExecute { .. } => 142,
            Special::SectorSetPlaneReflection { .. } => 143,
            Special::SectorSet3dFloor { .. } => 144,
            Special::SectorSetContents { .. } => 145,
            Special::CeilingCrushAndRaiseDist { .. } => 146,
            Special::GenericCrusher2 { .. } => 147,
            Special::SectorSetCeilingScale2 { .. } => 148,
            Special::SectorSetFloorScale2 { .. } => 149,
            Special::PlatUpNearestWaitDownStay { .. } => 150,
            Special::NoiseAlert { .. } => 151,
            Special::SendToCommunicator { .. } => 152,
            Special::ThingProjectileIntercept { .. } => 153,
            Special::ThingChangeTid { .. } => 154,
            Special::ThingHate { .. } => 155,
            Special::ThingProjectileAimed { .. } => 156,
            Special::ChangeSkill { .. } => 157,
            Special::ThingSetTranslation { .. } => 158,
            Special::PlaneAlign { .. } => 159,
            Special::LineMirror => 160,
            Special::LineAlignCeiling { .. } => 161,
            Special::LineAlignFloor { .. } => 162,
            Special::SectorSetRotation { .. } => 163,
            Special::SectorSetCeilingPanning { .. } => 164,
            Special::SectorSetFloorPanning { .. } => 165,
            Special::SectorSetCeilingScale { .. } => 166,
            Special::SectorSetFloorScale { .. } => 167,
            Special::StaticInit { .. } => 168,
            Special::SetPlayerProperty { .. } => 169,
            Special::CeilingLowerToHighestFloor { .. } => 170,
            Special::CeilingLowerInstant { .. } => 171,
            Special::CeilingRaiseInstant { .. } => 172,
            Special::CeilingCrushRaiseAndStayA { .. } => 173,
            Special::CeilingCrushAndRaiseA { .. } => 174,
            Special::CeilingCrushAndRaiseSilentA { .. } => 175,
            Special::CeilingRaiseByValueTimes8 { .. } => 176,
            Special::CeilingLowerByValueTimes8 { .. } => 177,
            Special::GenericFloor { .. } => 178,
            Special::GenericCeiling { .. } => 179,
            Special::GenericDoor { .. } => 180,
            Special::GenericLift { .. } => 181,
            Special::GenericStairs { .. } => 182,
            Special::GenericCrusher { .. } => 183,
            Special::PlatDownWaitUpStayLip { .. } => 184,
            Special::PlatPerpetualRaiseLip { .. } => 185,
            Special::TranslucentLine { .. } => 186,
            Special::TransferHeights { .. } => 187,
            Special::TransferFloorLight { .. } => 188,
            Special::TransferCeilingLight { .. } => 189,
            Special::SectorSetColor { .. } => 190,
            Special::SectorSetFade { .. } => 191,
            Special::SectorSetDamage { .. } => 192,
            Special::TeleportLine { .. } => 193,
            Special::SectorSetGravity { .. } => 194,
            Special::StairsBuildUpDoom { .. } => 195,
            Special::SectorSetWind { .. } => 196,
            Special::SectorSetFriction { .. } => 197,
            Special::SectorSetCurrent { .. } => 198,
            Special::ScrollTextureBoth { .. } => 199,
            Special::ScrollTextureModel { .. } => 200,
            Special::ScrollFloor { .. } => 201,
            Special::ScrollCeiling { .. } => 202,
            Special::ScrollTextureOffsets { .. } => 203,
            Special::AcsExecuteAlways { .. } => 204,
            Special::PointPushSetForce { .. } => 205,
            Special::PlatRaiseAndStayTx0 { .. } => 206,
            Special::ThingSetGoal { .. } => 207,
            Special::PlatUpByValueStayTx { .. } => 208,
            Special::PlatToggleCeiling { .. } => 209,
            Special::LightStrobeDoom { .. } => 210,
            Special::LightMinNeighbor { .. } => 211,
            Special::LightMaxNeighbor { .. } => 212,
            Special::FloorTransferTrigger { .. } => 213,
            Special::FloorTransferNumeric { .. } => 214,
            Special::ChangeCamera { .. } => 215,
            Special::FloorRaiseToLowestCeiling { .. } => 216,
            Special::FloorRaiseByValueTxTy { .. } => 217,
            Special::FloorRaiseByTexture { .. } => 218,
            Special::FloorLowerToLowestTxTy { .. } => 219,
            Special::FloorLowerToHighest { .. } => 220,
            Special::ExitNormal { .. } => 221,
            Special::ExitSecret { .. } => 222,
            Special::ElevatorRaiseToNearest { .. } => 223,
            Special::ElevatorMoveToFloor { .. } => 224,
            Special::ElevatorLowerToNearest { .. } => 225,
            Special::HealThing { .. } => 226,
            Special::DoorCloseWaitOpen { .. } => 227,
            Special::FloorDonut { .. } => 228,
            Special::FloorAndCeilingLowerRaise { .. } => 229,
            Special::CeilingRaiseToNearest { .. } => 230,
            Special::CeilingLowerToLowest { .. } => 231,
            Special::CeilingLowerToFloor { .. } => 232,
            Special::CeilingCrushRaiseAndStaySilA { .. } => 233,
            Special::FloorLowerToHighestEE { .. } => 234,
            Special::FloorRaiseToLowest { .. } => 235,
            Special::FloorLowerToLowestCeiling { .. } => 236,
            Special::FloorRaiseToCeiling { .. } => 237,
            Special::FloorToCeilingInstant { .. } => 238,
            Special::FloorLowerByTexture { .. } => 239,
            Special::CeilingRaiseToHighest { .. } => 240,
            Special::CeilingToHighestInstant { .. } => 241,
            Special::CeilingLowerToNearest { .. } => 242,
            Special::CeilingRaiseToLowest { .. } => 243,
            Special::CeilingRaiseToHighestFloor { .. } => 244,
            Special::CeilingToFloorInstant { .. } => 245,
            Special::CeilingRaiseByTexture { .. } => 246,
            Special::CeilingLowerByTexture { .. } => 247,
            Special::StairsBuildDownDoom { .. } => 248,
            Special::StairsBuildUpDoomSync { .. } => 249,
            Special::StairsBuildDownDoomSync { .. } => 250,
            Special::StairsBuildUpDoomCrush { .. } => 251,
            Special::DoorAnmatedClose { .. } => 252,
            Special::FloorStop { .. } => 253,
            Special::CeilingStop { .. } => 254,
            Special::SectorSetFloorGlow { .. } => 255,
            Special::SectorSetCeilingGlow { .. } => 256,
            Special::FloorMoveToValueAndCrush { .. } => 257,
            Special::CeilingMoveToValueAndCrush { .. } => 258,
        }
    }

    /// The five argument slots: the arguments in their declared order, then zeros.
    pub fn args(&self) -> (a: [i16; 5])
        ensures
            a@ == self.args_spec(),
    {
        let a = match *self {
            Special::Nothing => [0, 0, 0, 0, 0],
            Special::PolyobjStartLine { po, mirror, sound } => [po, mirror, sound, 0, 0],
            Special::PolyobjRotateLeft { po, speed, angle } => [po, speed, angle, 0, 0],
            Special::PolyobjRotateRight { po, speed, angle } => [po, speed, angle, 0, 0],
            Special::PolyobjMove { po, speed, angle, dist } => [po, speed, angle, dist, 0],
            Special::PolyobjExplicitLine { po, order, mirror, sound } => [po, order, mirror, sound, 0],
            Special::PolyobjMoveTimes8 { po, speed, angle, dist } => [po, speed, angle, dist, 0],
            Special::PolyobjDoorSwing { po, speed, angle, delay } => [po, speed, angle, delay, 0],
            Special::PolyobjDoorSlide { po, speed, angle, dist, delay } => [po, speed, angle, dist, delay],
            Special::LineHorizon => [0, 0, 0, 0, 0],
            Special::DoorClose { tag, speed, light_tag } => [tag, speed, light_tag, 0, 0],
            Special::DoorOpen { tag, speed, light_tag } => [tag, speed, light_tag, 0, 0],
            Special::DoorRaise { tag, speed, delay, light_tag } => [tag, speed, delay, light_tag, 0],
            Special::DoorRaiseLocked { tag, speed, delay, lock, lighttag } => [tag, speed, delay, lock, lighttag],
            Special::DoorAnimated { tag, speed, delay, lock } => [tag, speed, delay, lock, 0],
            Special::Autosave => [0, 0, 0, 0, 0],
            Special::TransferWallLight { lineid, flags } => [lineid, flags, 0, 0, 0],
            Special::ThingRaise { tid, nocheck } => [tid, nocheck, 0, 0, 0],
            Special::StartConversation { talker_tid, facetalker } => [talker_tid, facetalker, 0, 0, 0],
            Special::ThingStop { tid } => [tid, 0, 0, 0, 0],
            Special::FloorLowerByValue { tag, speed, height } => [tag, speed, height, 0, 0],
            Special::FloorLowerToLowest { tag, speed } => [tag, speed, 0, 0, 0],
            Special::FloorLowerToNearest { tag, speed } => [tag, speed, 0, 0, 0],
            Special::FloorRaiseByValue { tag, speed, height } => [tag, speed, height, 0, 0],
            Special::FloorRaiseToHighest { tag, speed } => [tag, speed, 0, 0, 0],
            Special::FloorRaiseToNearest { tag, speed } => [tag, speed, 0, 0, 0],
            Special::StairsBuildDown { tag, speed, height, delay, reset } => [tag, speed, height, delay, reset],
            Special::StairsBuildUp { tag, speed, height, delay, reset } => [tag, speed, height, delay, reset],
            Special::FloorRaiseAndCrush { tag, speed, crush, crushmode } => [tag, speed, crush, crushmode, 0],
            Special::PillarBuild { tag, speed, height } => [tag, speed, height, 0, 0],
            Special::PillarOpen { tag, speed, fdist, cdist } => [tag, speed, fdist, cdist, 0],
            Special::StairsBuildDownSync { tag, speed, height, reset } => [tag, speed, height, reset, 0],
            Special::StairsBuildUpSync { tag, speed, height, reset } => [tag, speed, height, reset, 0],
            Special::ForceField => [0, 0, 0, 0, 0],
            Special::ClearForceField { tag } => [tag, 0, 0, 0, 0],
            Special::FloorRaiseByValueTimes8 { tag, speed, height } => [tag, speed, height, 0, 0],
            Special::FloorLowerByValueTimes8 { tag, speed, height } => [tag, speed, height, 0, 0],
            Special::FloorMoveToValue { tag, speed, height, neg } => [tag, speed, height, neg, 0],
            Special::CeilingWaggle { tag, amp, freq, offset, time } => [tag, amp, freq, offset, time],
            Special::TeleportZombieChanger { tid, tag } => [tid, tag, 0, 0, 0],
            Special::CeilingLowerByValue { tag, speed, height } => [tag, speed, height, 0, 0],
            Special::CeilingRaiseByValue { tag, speed, height } => [tag, speed, height, 0, 0],
            Special::CeilingCrushAndRaise { tag, speed, crush, crushmode } => [tag, speed, crush, crushmode, 0],
            Special::CeilingLowerAndCrush { tag, speed, crush, crushmode } => [tag, speed, crush, crushmode, 0],
            Special::CeilingCrushStop { tag } => [tag, 0, 0, 0, 0],
            Special::CeilingCrushRaiseAndStay { tag, speed, crush, crushmode } => [tag, speed, crush, crushmode, 0],
            Special::FloorCrushStop { tag } => [tag, 0, 0, 0, 0],
            Special::CeilingMoveToValue { tag, speed, height, neg } => [tag, speed, height, neg, 0],
            Special::SectorAttach3dMidtex { lineid, tag, floororceiling } => [lineid, tag, floororceiling, 0, 0],
            Special::GlassBreak { dontspawnjunk, _type } => [dontspawnjunk, _type, 0, 0, 0],
            Special::ExtraFloorLightOnly { tag, _type } => [tag, _type, 0, 0, 0],
            Special::SectorSetLink { controltag, tag, surface, _type } => [controltag, tag, surface, _type, 0],
            Special::ScrollWall { lineid, x, y, side, flags } => [lineid, x, y, side, flags],
            Special::LineSetTextureOffset { lineid, x, y, side, flags } => [lineid, x, y, side, flags],
            Special::SectorChangeFlags { tag, setflags, clearflags } => [tag, setflags, clearflags, 0, 0],
            Special::LineSetBlocking { lineid, setflags, clearflags } => [lineid, setflags, clearflags, 0, 0],
            Special::LineSetTextureScale { lineid, x, y, side, flags } => [lineid, x, y, side, flags],
            Special::SectorSetPortal { tag, _type, plane, misc, alpha } => [tag, _type, plane, misc, alpha],
            Special::SectorCopyScroller { tag, flags } => [tag, flags, 0, 0, 0],
            Special::PolyobjOrMoveToSpot { po, speed, target } => [po, speed, target, 0, 0],
            Special::PlatPerpetualRaise { tag, speed, delay } => [tag, speed, delay, 0, 0],
            Special::PlatStop { tag } => [tag, 0, 0, 0, 0],
            Special::PlatDownWaitUpStay { tag, speed, delay } => [tag, speed, delay, 0, 0],
            Special::PlatDownByValue { tag, speed, delay, height } => [tag, speed, delay, height, 0],
            Special::PlatUpWaitDownStay { tag, speed, delay } => [tag, speed, delay, 0, 0],
            Special::PlatUpByValue { tag, speed, delay, height } => [tag, speed, delay, height, 0],
            Special::FloorLowerInstant { tag, arg1, height } => [tag, arg1, height, 0, 0],
            Special::FloorRaiseInstant { tag, arg1, height } => [tag, arg1, height, 0, 0],
            Special::FloorMoveToValueTimes8 { tag, speed, height, neg } => [tag, speed, height, neg, 0],
            Special::CeilingMoveToValueTimes8 { tag, speed, height, neg } => [tag, speed, height, neg, 0],
            Special::Teleport { tid, tag, nosourcefog } => [tid, tag, nosourcefog, 0, 0],
            Special::TeleportNoFog { tid, useangle, tag, keepheight } => [tid, useangle, tag, keepheight, 0],
            Special::ThrustThing { angle, force, nolimit, tid } => [angle, force, nolimit, tid, 0],
            Special::DamageThing { amount, _mod } => [amount, _mod, 0, 0, 0],
            Special::TeleportNewMap { map, pos, face } => [map, pos, face, 0, 0],
            Special::TeleportEndGame => [0, 0, 0, 0, 0],
            Special::TeleportOther { tid, destination, fog } => [tid, destination, fog, 0, 0],
            Special::TeleportGroup { tid, source, destination, movesource, fog } => [tid, source, destination, movesource, fog],
            Special::TeleportInSector { tag, source_tid, dest_tid, fog, group_tid } => [tag, source_tid, dest_tid, fog, group_tid],
            Special::ThingSetConversation { tid, convid } => [tid, convid, 0, 0, 0],
            Special::AcsExecute { script, map, s_arg1, s_arg2, s_arg3 } => [script, map, s_arg1, s_arg2, s_arg3],
            Special::AcsSuspend { script, map } => [script, map, 0, 0, 0],
            Special::AcsTerminate { script, map } => [script, map, 0, 0, 0],
            Special::AcsLockedExecute { script, map, s_arg1, s_arg2, lock } => [script, map, s_arg1, s_arg2, lock],
            Special::AcsExecuteWithResult { script, s_arg1, s_arg2, s_arg3, s_arg4 } => [script, s_arg1, s_arg2, s_arg3, s_arg4],
            Special::AcsLockedExecuteDoor { script, map, s_arg1, s_arg2, lock } => [script, map, s_arg1, s_arg2, lock],
            Special::PolyobjMoveToSpot { po, speed, target } => [po, speed, target, 0, 0],
            Special::PolyobjStop { po } => [po, 0, 0, 0, 0],
            Special::PolyobjMoveTo { po, speed, pos_x, pos_y } => [po, speed, pos_x, pos_y, 0],
            Special::PolyobjOrMoveTo { po, speed, pos_x, pos_y } => [po, speed, pos_x, pos_y, 0],
            Special::PolyobjOrRotateLeft { po, speed, angle } => [po, speed, angle, 0, 0],
            Special::PolyobjOrRotateRight { po, speed, angle } => [po, speed, angle, 0, 0],
            Special::PolyobjOrMove { po, speed, angle, dist } => [po, speed, angle, dist, 0],
            Special::PolyobjOrMoveTimes8 { po, speed, angle, dist } => [po, speed, angle, dist, 0],
            Special::PillarBuildAndCrush { tag, speed, height, crush, crushmode } => [tag, speed, height, crush, crushmode],
            Special::FloorAndCeilingLowerByValue { tag, speed, value } => [tag, speed, value, 0, 0],
            Special::FloorAndCeilingRaiseByValue { tag, speed, value } => [tag, speed, value, 0, 0],
            Special::CeilingLowerAndCrushDist { tag, speed, crush, dist, crushmode } => [tag, speed, crush, dist, crushmode],
            Special::SectorSetTranslucent { tag, plane, amount, _type } => [tag, plane, amount, _type, 0],
            Special::FloorRaiseAndCrushDoom { tag, speed, crush, crushmode } => [tag, speed, crush, crushmode, 0],
            Special::ScrollTextureLeft { speed, flags } => [speed, flags, 0, 0, 0],
            Special::ScrollTextureRight { speed, flags } => [speed, flags, 0, 0, 0],
            Special::ScrollTextureUp { speed, flags } => [speed, flags, 0, 0, 0],
            Special::ScrollTextureDown { speed, flags } => [speed, flags, 0, 0, 0],
            Special::CeilingCrushAndRaiseSilentDist { tag, dist, speed, crush, crushmode } => [tag, dist, speed, crush, crushmode],
            Special::DoorWaitRaise { tag, speed, delay, wait, lighttag } => [tag, speed, delay, wait, lighttag],
            Special::DoorWaitClose { tag, speed, wait, lighttag } => [tag, speed, wait, lighttag, 0],
            Special::LineSetPortalTarget { sourceline, targetline } => [sourceline, targetline, 0, 0, 0],
            Special::LightForceLightning { mode } => [mode, 0, 0, 0, 0],
            Special::LightRaiseByValue { tag, value } => [tag, value, 0, 0, 0],
            Special::LightLowerByValue { tag, value } => [tag, value, 0, 0, 0],
            Special::LightChangeToValue { tag, value } => [tag, value, 0, 0, 0],
            Special::LightFade { tag, value, tics } => [tag, value, tics, 0, 0],
            Special::LightGlow { tag, upper, lower, tics } => [tag, upper, lower, tics, 0],
            Special::LightFlicker { tag, upper, lower } => [tag, upper, lower, 0, 0],
            Special::LightStrobe { tag, upper, lower, u_tics, i_tics } => [tag, upper, lower, u_tics, i_tics],
            Special::LightStop { tag } => [tag, 0, 0, 0, 0],
            Special::PlaneCopy { front_floor, front_ceiling, back_floor, back_ceiling, share } => [front_floor, front_ceiling, back_floor, back_ceiling, share],
            Special::ThingDamage { tid, amount, _mod } => [tid, amount, _mod, 0, 0],
            Special::RadiusQuake { intensity, duration, damrad, temrad, tid } => [intensity, duration, damrad, temrad, tid],
            Special::LineSetIdentification { lineid, moreflags, lineid_hi } => [lineid, moreflags, lineid_hi, 0, 0],
            Special::ThingMove { tid, destid, nofog } => [tid, destid, nofog, 0, 0],
            Special::ThingSetSpecial { tid, special, arg0, arg1, arg2 } => [tid, special, arg0, arg1, arg2],
            Special::ThrustThingZ { tid, force, updown, setadd } => [tid, force, updown, setadd, 0],
            Special::UsePuzzleItem { item, script, s_arg1, s_arg2, s_arg3 } => [item, script, s_arg1, s_arg2, s_arg3],
            Special::ThingActivate { tid } => [tid, 0, 0, 0, 0],
            Special::ThingDeactivate { tid } => [tid, 0, 0, 0, 0],
            Special::ThingRemove { tid } => [tid, 0, 0, 0, 0],
            Special::ThingDestroy { tid, extreme, tag } => [tid, extreme, tag, 0, 0],
            Special::ThingProjectile { tid, _type, angle, speed, vspeed } => [tid, _type, angle, speed, vspeed],
            Special::ThingSpawn { tid, _type, angle, newtid } => [tid, _type, angle, newtid, 0],
            Special::ThingProjectileGravity { tid, _type, angle, speed, vspeed } => [tid, _type, angle, speed, vspeed],
            Special::ThingSpawnNoFog { tid, _type, angle, newtid } => [tid, _type, angle, newtid, 0],
            Special::FloorWaggle { tag, amp, freq, offset, time } => [tag, amp, freq, offset, time],
            Special::ThingSpawnFacing { tid, _type, nofog, newtid } => [tid, _type, nofog, newtid, 0],
            Special::SectorChangeSound { tag, newsequence } => [tag, newsequence, 0, 0, 0],
            Special::PlayerSetTeam { team } => [team, 0, 0, 0, 0],
            Special::TeamScore { points, nogrin } => [points, nogrin, 0, 0, 0],
            Special::TeamGivePoints { team, points, announce } => [team, points, announce, 0, 0],
            Special::TeleportNoStop { tid, sectortag, nofog } => [tid, sectortag, nofog, 0, 0],
            Special::LineSetPortal { targetline, thisline, _type, planeanchor } => [targetline, thisline, _type, planeanchor, 0],
            Special::SetGlobalFogParameter { property, value } => [property, value, 0, 0, 0],
            Special::FsExecute { scriptnumber, side, keynum, message } => [scriptnumber, side, keynum, message, 0],
            Special::SectorSetPlaneReflection { tag, floor, ceiling } => [tag, floor, ceiling, 0, 0],
            Special::SectorSet3dFloor { tag, _type, flags, alpha, hitag_lineid } => [tag, _type, flags, alpha, hitag_lineid],
            Special::SectorSetContents { _type, translucency, flags } => [_type, translucency, flags, 0, 0],
            Special::CeilingCrushAndRaiseDist { tag, dist, speed, crush, crushmode } => [tag, dist, speed, crush, crushmode],
            Special::GenericCrusher2 { tag, dspeed, uspeed, silent, crush } => [tag, dspeed, uspeed, silent, crush],
            Special::SectorSetCeilingScale2 { tag, u_fixed, v_fixed } => [tag, u_fixed, v_fixed, 0, 0],
            Special::SectorSetFloorScale2 { tag, u_fixed, v_fixed } => [tag, u_fixed, v_fixed, 0, 0],
            Special::PlatUpNearestWaitDownStay { tag, speed, delay } => [tag, speed, delay, 0, 0],
            Special::NoiseAlert { target_tid, emitter_tid } => [target_tid, emitter_tid, 0, 0, 0],
            Special::SendToCommunicator { voc_id, front_only, identify, nolog } => [voc_id, front_only, identify, nolog, 0],
            Special::ThingProjectileIntercept { tid, _type, speed, target, newtid } => [tid, _type, speed, target, newtid],
            Special::ThingChangeTid { oldtid, newtid } => [oldtid, newtid, 0, 0, 0],
            Special::ThingHate { hater, hatee, _type } => [hater, hatee, _type, 0, 0],
            Special::ThingProjectileAimed { tid, _type, speed, target, newtid } => [tid, _type, speed, target, newtid],
            Special::ChangeSkill { skill } => [skill, 0, 0, 0, 0],
            Special::ThingSetTranslation { tid, translation } => [tid, translation, 0, 0, 0],
            Special::PlaneAlign { floor, ceiling, lineid } => [floor, ceiling, lineid, 0, 0],
            Special::LineMirror => [0, 0, 0, 0, 0],
            Special::LineAlignCeiling { lineid, side } => [lineid, side, 0, 0, 0],
            Special::LineAlignFloor { lineid, side } => [lineid, side, 0, 0, 0],
            Special::SectorSetRotation { tag, floor, ceiling } => [tag, floor, ceiling, 0, 0],
            Special::SectorSetCeilingPanning { tag, u_int, u_frac, v_int, v_frac } => [tag, u_int, u_frac, v_int, v_frac],
            Special::SectorSetFloorPanning { tag, u_int, u_frac, v_int, v_frac } => [tag, u_int, u_frac, v_int, v_frac],
            Special::SectorSetCeilingScale { tag, u_int, u_frac, v_int, v_frac } => [tag, u_int, u_frac, v_int, v_frac],
            Special::SectorSetFloorScale { tag, u_int, u_frac, v_int, v_frac } => [tag, u_int, u_frac, v_int, v_frac],
            Special::StaticInit { tag, prop, flip_ceiling, movetype } => [tag, prop, flip_ceiling, movetype, 0],
            Special::SetPlayerProperty { who, set, which } => [who, set, which, 0, 0],
            Special::CeilingLowerToHighestFloor { tag, speed } => [tag, speed, 0, 0, 0],
            Special::CeilingLowerInstant { tag, arg1, height } => [tag, arg1, height, 0, 0],
            Special::CeilingRaiseInstant { tag, arg1, height } => [tag, arg1, height, 0, 0],
            Special::CeilingCrushRaiseAndStayA { tag, dspeed, uspeed, crush, crushmode } => [tag, dspeed, uspeed, crush, crushmode],
            Special::CeilingCrushAndRaiseA { tag, dspeed, uspeed, crush, crushmode } => [tag, dspeed, uspeed, crush, crushmode],
            Special::CeilingCrushAndRaiseSilentA { tag, dspeed, uspeed, crush, crushmode } => [tag, dspeed, uspeed, crush, crushmode],
            Special::CeilingRaiseByValueTimes8 { tag, speed, height } => [tag, speed, height, 0, 0],
            Special::CeilingLowerByValueTimes8 { tag, speed, height } => [tag, speed, height, 0, 0],
            Special::GenericFloor { tag, speed, height, target, flags } => [tag, speed, height, target, flags],
            Special::GenericCeiling { tag, speed, height, target, flags } => [tag, speed, height, target, flags],
            Special::GenericDoor { tag, speed, kind, delay, lock } => [tag, speed, kind, delay, lock],
            Special::GenericLift { tag, speed, delay, _type, height } => [tag, speed, delay, _type, height],
            Special::GenericStairs { tag, speed, height, flags, reset } => [tag, speed, height, flags, reset],
            Special::GenericCrusher { tag, dspeed, uspeed, silent, crush } => [tag, dspeed, uspeed, silent, crush],
            Special::PlatDownWaitUpStayLip { tag, speed, delay, lip, sound } => [tag, speed, delay, lip, sound],
            Special::PlatPerpetualRaiseLip { tag, speed, delay, lip } => [tag, speed, delay, lip, 0],
            Special::TranslucentLine { lineid, amount, additive, moreflags } => [lineid, amount, additive, moreflags, 0],
            Special::TransferHeights { tag, flags } => [tag, flags, 0, 0, 0],
            Special::TransferFloorLight { tag } => [tag, 0, 0, 0, 0],
            Special::TransferCeilingLight { tag } => [tag, 0, 0, 0, 0],
            Special::SectorSetColor { tag, r, g, b, desat } => [tag, r, g, b, desat],
            Special::SectorSetFade { tag, r, g, b } => [tag, r, g, b, 0],
            Special::SectorSetDamage { tag, amount, _mod, interval, leaky } => [tag, amount, _mod, interval, leaky],
            Special::TeleportLine { thisid, destid, flip } => [thisid, destid, flip, 0, 0],
            Special::SectorSetGravity { tag, ipart, fpart } => [tag, ipart, fpart, 0, 0],
            Special::StairsBuildUpDoom { tag, speed, height, delay, reset } => [tag, speed, height, delay, reset],
            Special::SectorSetWind { tag, amount, angle, useline } => [tag, amount, angle, useline, 0],
            Special::SectorSetFriction { tag, amount } => [tag, amount, 0, 0, 0],
            Special::SectorSetCurrent { tag, amount, angle, useline } => [tag, amount, angle, useline, 0],
            Special::ScrollTextureBoth { lineid, left, right, down, up } => [lineid, left, right, down, up],
            Special::ScrollTextureModel { lineid, scrollbits } => [lineid, scrollbits, 0, 0, 0],
            Special::ScrollFloor { tag, scrollbits, _type, x_move, y_move } => [tag, scrollbits, _type, x_move, y_move],
            Special::ScrollCeiling { tag, scrollbits, unused, x_move, y_move } => [tag, scrollbits, unused, x_move, y_move],
            Special::ScrollTextureOffsets { flags } => [flags, 0, 0, 0, 0],
            Special::AcsExecuteAlways { script, map, s_arg1, s_arg2, s_arg3 } => [script, map, s_arg1, s_arg2, s_arg3],
            Special::PointPushSetForce { tag, tid, amount, useline } => [tag, tid, amount, useline, 0],
            Special::PlatRaiseAndStayTx0 { tag, speed, lockout } => [tag, speed, lockout, 0, 0],
            Special::ThingSetGoal { tid, goal, delay, dontchasetarget } => [tid, goal, delay, dontchasetarget, 0],
            Special::PlatUpByValueStayTx { tag, speed, height } => [tag, speed, height, 0, 0],
            Special::PlatToggleCeiling { tag } => [tag, 0, 0, 0, 0],
            Special::LightStrobeDoom { tag, u_tics, i_tics } => [tag, u_tics, i_tics, 0, 0],
            Special::LightMinNeighbor { tag } => [tag, 0, 0, 0, 0],
            Special::LightMaxNeighbor { tag } => [tag, 0, 0, 0, 0],
            Special::FloorTransferTrigger { tag } => [tag, 0, 0, 0, 0],
            Special::FloorTransferNumeric { tag } => [tag, 0, 0, 0, 0],
            Special::ChangeCamera { tid, who, revert } => [tid, who, revert, 0, 0],
            Special::FloorRaiseToLowestCeiling { tag, speed } => [tag, speed, 0, 0, 0],
            Special::FloorRaiseByValueTxTy { tag, speed, height } => [tag, speed, height, 0, 0],
            Special::FloorRaiseByTexture { tag, speed } => [tag, speed, 0, 0, 0],
            Special::FloorLowerToLowestTxTy { tag, speed } => [tag, speed, 0, 0, 0],
            Special::FloorLowerToHighest { tag, speed, adjust, force_adjust } => [tag, speed, adjust, force_adjust, 0],
            Special::ExitNormal { pos } => [pos, 0, 0, 0, 0],
            Special::ExitSecret { pos } => [pos, 0, 0, 0, 0],
            Special::ElevatorRaiseToNearest { tag, speed } => [tag, speed, 0, 0, 0],
            Special::ElevatorMoveToFloor { tag, speed } => [tag, speed, 0, 0, 0],
            Special::ElevatorLowerToNearest { tag, speed } => [tag, speed, 0, 0, 0],
            Special::HealThing { amount, max } => [amount, max, 0, 0, 0],
            Special::DoorCloseWaitOpen { tag, speed, delay, lighttag } => [tag, speed, delay, lighttag, 0],
            Special::FloorDonut { ptag, pspeed, sspeed } => [ptag, pspeed, sspeed, 0, 0],
            Special::FloorAndCeilingLowerRaise { tag, fspeed, cspeed, boomemu } => [tag, fspeed, cspeed, boomemu, 0],
            Special::CeilingRaiseToNearest { tag, speed } => [tag, speed, 0, 0, 0],
            Special::CeilingLowerToLowest { tag, speed } => [tag, speed, 0, 0, 0],
            Special::CeilingLowerToFloor { tag, speed } => [tag, speed, 0, 0, 0],
            Special::CeilingCrushRaiseAndStaySilA { tag, dspeed, uspeed, crush, crusmode } => [tag, dspeed, uspeed, crush, crusmode],
            Special::FloorLowerToHighestEE { tag, speed, change } => [tag, speed, change, 0, 0],
            Special::FloorRaiseToLowest { tag, change, crush } => [tag, change, crush, 0, 0],
            Special::FloorLowerToLowestCeiling { tag, speed, change } => [tag, speed, change, 0, 0],
            Special::FloorRaiseToCeiling { tag, speed, change, crush, gap } => [tag, speed, change, crush, gap],
            Special::FloorToCeilingInstant { tag, change, crush, gap } => [tag, change, crush, gap, 0],
            Special::FloorLowerByTexture { tag, speed, change, crush } => [tag, speed, change, crush, 0],
            Special::CeilingRaiseToHighest { tag, speed, change } => [tag, speed, change, 0, 0],
            Special::CeilingToHighestInstant { tag, change, crush } => [tag, change, crush, 0, 0],
            Special::CeilingLowerToNearest { tag, speed, change, crush } => [tag, speed, change, crush, 0],
            Special::CeilingRaiseToLowest { tag, speed, change } => [tag, speed, change, 0, 0],
            Special::CeilingRaiseToHighestFloor { tag, speed, change } => [tag, speed, change, 0, 0],
            Special::CeilingToFloorInstant { tag, change, crush, gap } => [tag, change, crush, gap, 0],
            Special::CeilingRaiseByTexture { tag, speed, change } => [tag, speed, change, 0, 0],
            Special::CeilingLowerByTexture { tag, speed, change, crush } => [tag, speed, change, crush, 0],
            Special::StairsBuildDownDoom { tag, speed, height, delay, reset } => [tag, speed, height, delay, reset],
            Special::StairsBuildUpDoomSync { tag, speed, height, reset } => [tag, speed, height, reset, 0],
            Special::StairsBuildDownDoomSync { tag, speed, height, reset } => [tag, speed, height, reset, 0],
            Special::StairsBuildUpDoomCrush { tag, speed, height, delay, reset } => [tag, speed, height, delay, reset],
            Special::DoorAnmatedClose { tag, speed } => [tag, speed, 0, 0, 0],
            Special::FloorStop { tag } => [tag, 0, 0, 0, 0],
            Special::CeilingStop { tag } => [tag, 0, 0, 0, 0],
            Special::SectorSetFloorGlow { tag, height, r, g, b } => [tag, height, r, g, b],
            Special::SectorSetCeilingGlow { tag, height, r, g, b } => [tag, height, r, g, b],
            Special::FloorMoveToValueAndCrush { tag, speed, height, crush, crushmode } => [tag, speed, height, crush, crushmode],
            Special::CeilingMoveToValueAndCrush { tag, speed, height, crush, crushmode } => [tag, speed, height, crush, crushmode],
        };
        assert(a@ =~= self.args_spec());
        a
    }

    /// The variant with the given index, which has no arguments.
    pub open spec fn with_none_spec(index: int) -> Special {
        if index == 0 {
            Special::Nothing
        } else if index == 9 {
            Special::LineHorizon
        } else if index == 15 {
            Special::Autosave
        } else if index == 33 {
            Special::ForceField
        } else if index == 75 {
            Special::TeleportEndGame
        } else {
            Special::LineMirror
        }
    }

    /// The variant with the given index, which has no arguments.
    fn with_none(index: usize) -> (s: Self)
        requires
            ARG_COUNTS@[index as int] == 0,
        ensures
            s == Special::with_none_spec(index as int),
    {
        match index {
            0 => Special::Nothing,
            9 => Special::LineHorizon,
            15 => Special::Autosave,
            33 => Special::ForceField,
            75 => Special::TeleportEndGame,
            _ => Special::LineMirror,
        }
    }

    /// A variant made of an index and no arguments has that index and those arguments.
    proof fn lemma_with_none(index: int)
        requires
            0 <= index < SPECIAL_COUNT,
            ARG_COUNTS@[index] == 0,
        ensures
            Special::with_none_spec(index).index_spec() == index,
            Special::with_none_spec(index).args_spec() == seq![0i16, 0i16, 0i16, 0i16, 0i16],
    {
        assert(Special::with_none_spec(index).args_spec() =~= seq![0i16, 0i16, 0i16, 0i16, 0i16]);
    }

    /// The variant with the given index, which has one argument.
    pub open spec fn with_one_spec(index: int, a: i16) -> Special {
        if index == 19 {
            Special::ThingStop { tid: a }
        } else if index == 34 {
            Special::ClearForceField { tag: a }
        } else if index == 44 {
            Special::CeilingCrushStop { tag: a }
        } else if index == 46 {
            Special::FloorCrushStop { tag: a }
        } else if index == 61 {
            Special::PlatStop { tag: a }
        } else if index == 87 {
            Special::PolyobjStop { po: a }
        } else if index == 108 {
            Special::LightForceLightning { mode: a }
        } else if index == 116 {
            Special::LightStop { tag: a }
        } else if index == 125 {
            Special::ThingActivate { tid: a }
        } else if index == 126 {
            Special::ThingDeactivate { tid: a }
        } else if index == 127 {
            Special::ThingRemove { tid: a }
        } else if index == 136 {
            Special::PlayerSetTeam { team: a }
        } else if index == 157 {
            Special::ChangeSkill { skill: a }
        } else if index == 188 {
            Special::TransferFloorLight { tag: a }
        } else if index == 189 {
            Special::TransferCeilingLight { tag: a }
        } else if index == 203 {
            Special::ScrollTextureOffsets { flags: a }
        } else if index == 209 {
            Special::PlatToggleCeiling { tag: a }
        } else if index == 211 {
            Special::LightMinNeighbor { tag: a }
        } else if index == 212 {
            Special::LightMaxNeighbor { tag: a }
        } else if index == 213 {
            Special::FloorTransferTrigger { tag: a }
        } else if index == 214 {
            Special::FloorTransferNumeric { tag: a }
        } else if index == 221 {
            Special::ExitNormal { pos: a }
        } else if index == 222 {
            Special::ExitSecret { pos: a }
        } else if index == 253 {
            Special::FloorStop { tag: a }
        } else {
            Special::CeilingStop { tag: a }
        }
    }

    /// The variant with the given index, which has one argument.
    fn with_one(index: usize, a: i16) -> (s: Self)
        requires
            ARG_COUNTS@[index as int] == 1,
        ensures
            s == Special::with_one_spec(index as int, a),
    {
        match index {
            19 => Special::ThingStop { tid: a },
            34 => Special::ClearForceField { tag: a },
            44 => Special::CeilingCrushStop { tag: a },
            46 => Special::FloorCrushStop { tag: a },
            61 => Special::PlatStop { tag: a },
            87 => Special::PolyobjStop { po: a },
            108 => Special::LightForceLightning { mode: a },
            116 => Special::LightStop { tag: a },
            125 => Special::ThingActivate { tid: a },
            126 => Special::ThingDeactivate { tid: a },
            127 => Special::ThingRemove { tid: a },
            136 => Special::PlayerSetTeam { team: a },
            157 => Special::ChangeSkill { skill: a },
            188 => Special::TransferFloorLight { tag: a },
            189 => Special::TransferCeilingLight { tag: a },
            203 => Special::ScrollTextureOffsets { flags: a },
            209 => Special::PlatToggleCeiling { tag: a },
            211 => Special::LightMinNeighbor { tag: a },
            212 => Special::LightMaxNeighbor { tag: a },
            213 => Special::FloorTransferTrigger { tag: a },
            214 => Special::FloorTransferNumeric { tag: a },
            221 => Special::ExitNormal { pos: a },
            222 => Special::ExitSecret { pos: a },
            253 => Special::FloorStop { tag: a },
            _ => Special::CeilingStop { tag: a },
        }
    }

    /// A variant made of an index and one argument has that index and those arguments.
    proof fn lemma_with_one(index: int, a: i16)
        requires
            0 <= index < SPECIAL_COUNT,
            ARG_COUNTS@[index] == 1,
        ensures
            Special::with_one_spec(index, a).index_spec() == index,
            Special::with_one_spec(index, a).args_spec() == seq![a, 0i16, 0i16, 0i16, 0i16],
    {
        assert(Special::with_one_spec(index, a).args_spec() =~= seq![a, 0i16, 0i16, 0i16, 0i16]);
    }

    /// The variant with the given index, which has two arguments.
    pub open spec fn with_two_spec(index: int, a: i16, b: i16) -> Special {
        if index == 16 {
            Special::TransferWallLight { lineid: a, flags: b }
        } else if index == 17 {
            Special::ThingRaise { tid: a, nocheck: b }
        } else if index == 18 {
            Special::StartConversation { talker_tid: a, facetalker: b }
        } else if index == 21 {
            Special::FloorLowerToLowest { tag: a, speed: b }
        } else if index == 22 {
            Special::FloorLowerToNearest { tag: a, speed: b }
        } else if index == 24 {
            Special::FloorRaiseToHighest { tag: a, speed: b }
        } else if index == 25 {
            Special::FloorRaiseToNearest { tag: a, speed: b }
        } else if index == 39 {
            Special::TeleportZombieChanger { tid: a, tag: b }
        } else if index == 49 {
            Special::GlassBreak { dontspawnjunk: a, _type: b }
        } else if index == 50 {
            Special::ExtraFloorLightOnly { tag: a, _type: b }
        } else if index == 58 {
            Special::SectorCopyScroller { tag: a, flags: b }
        } else if index == 73 {
            Special::DamageThing { amount: a, _mod: b }
        } else if index == 79 {
            Special::ThingSetConversation { tid: a, convid: b }
        } else if index == 81 {
            Special::AcsSuspend { script: a, map: b }
        } else if index == 82 {
            Special::AcsTerminate { script: a, map: b }
        } else if index == 100 {
            Special::ScrollTextureLeft { speed: a, flags: b }
        } else if index == 101 {
            Special::ScrollTextureRight { speed: a, flags: b }
        } else if index == 102 {
            Special::ScrollTextureUp { speed: a, flags: b }
        } else if index == 103 {
            Special::ScrollTextureDown { speed: a, flags: b }
        } else if index == 107 {
            Special::LineSetPortalTarget { sourceline: a, targetline: b }
        } else if index == 109 {
            Special::LightRaiseByValue { tag: a, value: b }
        } else if index == 110 {
            Special::LightLowerByValue { tag: a, value: b }
        } else if index == 111 {
            Special::LightChangeToValue { tag: a, value: b }
        } else if index == 135 {
            Special::SectorChangeSound { tag: a, newsequence: b }
        } else if index == 137 {
            Special::TeamScore { points: a, nogrin: b }
        } else if index == 141 {
            Special::SetGlobalFogParameter { property: a, value: b }
        } else if index == 151 {
            Special::NoiseAlert { target_tid: a, emitter_tid: b }
        } else if index == 154 {
            Special::ThingChangeTid { oldtid: a, newtid: b }
        } else if index == 158 {
            Special::ThingSetTranslation { tid: a, translation: b }
        } else if index == 161 {
            Special::LineAlignCeiling { lineid: a, side: b }
        } else if index == 162 {
            Special::LineAlignFloor { lineid: a, side: b }
        } else if index == 170 {
            Special::CeilingLowerToHighestFloor { tag: a, speed: b }
        } else if index == 187 {
            Special::TransferHeights { tag: a, flags: b }
        } else if index == 197 {
            Special::SectorSetFriction { tag: a, amount: b }
        } else if index == 200 {
            Special::ScrollTextureModel { lineid: a, scrollbits: b }
        } else if index == 216 {
            Special::FloorRaiseToLowestCeiling { tag: a, speed: b }
        } else if index == 218 {
            Special::FloorRaiseByTexture { tag: a, speed: b }
        } else if index == 219 {
            Special::FloorLowerToLowestTxTy { tag: a, speed: b }
        } else if index == 223 {
            Special::ElevatorRaiseToNearest { tag: a, speed: b }
        } else if index == 224 {
            Special::ElevatorMoveToFloor { tag: a, speed: b }
        } else if index == 225 {
            Special::ElevatorLowerToNearest { tag: a, speed: b }
        } else if index == 226 {
            Special::HealThing { amount: a, max: b }
        } else if index == 230 {
            Special::CeilingRaiseToNearest { tag: a, speed: b }
        } else if index == 231 {
            Special::CeilingLowerToLowest { tag: a, speed: b }
        } else if index == 232 {
            Special::CeilingLowerToFloor { tag: a, speed: b }
        } else {
            Special::DoorAnmatedClose { tag: a, speed: b }
        }
    }

    /// The variant with the given index, which has two arguments.
    fn with_two(index: usize, a: i16, b: i16) -> (s: Self)
        requires
            ARG_COUNTS@[index as int] == 2,
        ensures
            s == Special::with_two_spec(index as int, a, b),
    {
        match index {
            16 => Special::TransferWallLight { lineid: a, flags: b },
            17 => Special::ThingRaise { tid: a, nocheck: b },
            18 => Special::StartConversation { talker_tid: a, facetalker: b },
            21 => Special::FloorLowerToLowest { tag: a, speed: b },
            22 => Special::FloorLowerToNearest { tag: a, speed: b },
            24 => Special::FloorRaiseToHighest { tag: a, speed: b },
            25 => Special::FloorRaiseToNearest { tag: a, speed: b },
            39 => Special::TeleportZombieChanger { tid: a, tag: b },
            49 => Special::GlassBreak { dontspawnjunk: a, _type: b },
            50 => Special::ExtraFloorLightOnly { tag: a, _type: b },
            58 => Special::SectorCopyScroller { tag: a, flags: b },
            73 => Special::DamageThing { amount: a, _mod: b },
            79 => Special::ThingSetConversation { tid: a, convid: b },
            81 => Special::AcsSuspend { script: a, map: b },
            82 => Special::AcsTerminate { script: a, map: b },
            100 => Special::ScrollTextureLeft { speed: a, flags: b },
            101 => Special::ScrollTextureRight { speed: a, flags: b },
            102 => Special::ScrollTextureUp { speed: a, flags: b },
            103 => Special::ScrollTextureDown { speed: a, flags: b },
            107 => Special::LineSetPortalTarget { sourceline: a, targetline: b },
            109 => Special::LightRaiseByValue { tag: a, value: b },
            110 => Special::LightLowerByValue { tag: a, value: b },
            111 => Special::LightChangeToValue { tag: a, value: b },
            135 => Special::SectorChangeSound { tag: a, newsequence: b },
            137 => Special::TeamScore { points: a, nogrin: b },
            141 => Special::SetGlobalFogParameter { property: a, value: b },
            151 => Special::NoiseAlert { target_tid: a, emitter_tid: b },
            154 => Special::ThingChangeTid { oldtid: a, newtid: b },
            158 => Special::ThingSetTranslation { tid: a, translation: b },
            161 => Special::LineAlignCeiling { lineid: a, side: b },
            162 => Special::LineAlignFloor { lineid: a, side: b },
            170 => Special::CeilingLowerToHighestFloor { tag: a, speed: b },
            187 => Special::TransferHeights { tag: a, flags: b },
            197 => Special::SectorSetFriction { tag: a, amount: b },
            200 => Special::ScrollTextureModel { lineid: a, scrollbits: b },
            216 => Special::FloorRaiseToLowestCeiling { tag: a, speed: b },
            218 => Special::FloorRaiseByTexture { tag: a, speed: b },
            219 => Special::FloorLowerToLowestTxTy { tag: a, speed: b },
            223 => Special::ElevatorRaiseToNearest { tag: a, speed: b },
            224 => Special::ElevatorMoveToFloor { tag: a, speed: b },
            225 => Special::ElevatorLowerToNearest { tag: a, speed: b },
            226 => Special::HealThing { amount: a, max: b },
            230 => Special::CeilingRaiseToNearest { tag: a, speed: b },
            231 => Special::CeilingLowerToLowest { tag: a, speed: b },
            232 => Special::CeilingLowerToFloor { tag: a, speed: b },
            _ => Special::DoorAnmatedClose { tag: a, speed: b },
        }
    }

    /// A variant made of an index and two arguments has that index and those arguments.
    proof fn lemma_with_two(index: int, a: i16, b: i16)
        requires
            0 <= index < SPECIAL_COUNT,
            ARG_COUNTS@[index] == 2,
        ensures
            Special::with_two_spec(index, a, b).index_spec() == index,
            Special::with_two_spec(index, a, b).args_spec() == seq![a, b, 0i16, 0i16, 0i16],
    {
        assert(Special::with_two_spec(index, a, b).args_spec() =~= seq![a, b, 0i16, 0i16, 0i16]);
    }

    /// The variant with the given index, which has three arguments.
    pub open spec fn with_three_spec(index: int, a: i16, b: i16, c: i16) -> Special {
        if index == 1 {
            Special::PolyobjStartLine { po: a, mirror: b, sound: c }
        } else if index == 2 {
            Special::PolyobjRotateLeft { po: a, speed: b, angle: c }
        } else if index == 3 {
            Special::PolyobjRotateRight { po: a, speed: b, angle: c }
        } else if index == 10 {
            Special::DoorClose { tag: a, speed: b, light_tag: c }
        } else if index == 11 {
            Special::DoorOpen { tag: a, speed: b, light_tag: c }
        } else if index == 20 {
            Special::FloorLowerByValue { tag: a, speed: b, height: c }
        } else if index == 23 {
            Special::FloorRaiseByValue { tag: a, speed: b, height: c }
        } else if index == 29 {
            Special::PillarBuild { tag: a, speed: b, height: c }
        } else if index == 35 {
            Special::FloorRaiseByValueTimes8 { tag: a, speed: b, height: c }
        } else if index == 36 {
            Special::FloorLowerByValueTimes8 { tag: a, speed: b, height: c }
        } else if index == 40 {
            Special::CeilingLowerByValue { tag: a, speed: b, height: c }
        } else if index == 41 {
            Special::CeilingRaiseByValue { tag: a, speed: b, height: c }
        } else if index == 48 {
            Special::SectorAttach3dMidtex { lineid: a, tag: b, floororceiling: c }
        } else if index == 54 {
            Special::SectorChangeFlags { tag: a, setflags: b, clearflags: c }
        } else if index == 55 {
            Special::LineSetBlocking { lineid: a, setflags: b, clearflags: c }
        } else if index == 59 {
            Special::PolyobjOrMoveToSpot { po: a, speed: b, target: c }
        } else if index == 60 {
            Special::PlatPerpetualRaise { tag: a, speed: b, delay: c }
        } else if index == 62 {
            Special::PlatDownWaitUpStay { tag: a, speed: b, delay: c }
        } else if index == 64 {
            Special::PlatUpWaitDownStay { tag: a, speed: b, delay: c }
        } else if index == 66 {
            Special::FloorLowerInstant { tag: a, arg1: b, height: c }
        } else if index == 67 {
            Special::FloorRaiseInstant { tag: a, arg1: b, height: c }
        } else if index == 70 {
            Special::Teleport { tid: a, tag: b, nosourcefog: c }
        } else if index == 74 {
            Special::TeleportNewMap { map: a, pos: b, face: c }
        } else if index == 76 {
            Special::TeleportOther { tid: a, destination: b, fog: c }
        } else if index == 86 {
            Special::PolyobjMoveToSpot { po: a, speed: b, target: c }
        } else if index == 90 {
            Special::PolyobjOrRotateLeft { po: a, speed: b, angle: c }
        } else if index == 91 {
            Special::PolyobjOrRotateRight { po: a, speed: b, angle: c }
        } else if index == 95 {
            Special::FloorAndCeilingLowerByValue { tag: a, speed: b, value: c }
        } else if index == 96 {
            Special::FloorAndCeilingRaiseByValue { tag: a, speed: b, value: c }
        } else if index == 112 {
            Special::LightFade { tag: a, value: b, tics: c }
        } else if index == 114 {
            Special::LightFlicker { tag: a, upper: b, lower: c }
        } else if index == 118 {
            Special::ThingDamage { tid: a, amount: b, _mod: c }
        } else if index == 120 {
            Special::LineSetIdentification { lineid: a, moreflags: b, lineid_hi: c }
        } else if index == 121 {
            Special::ThingMove { tid: a, destid: b, nofog: c }
        } else if index == 128 {
            Special::ThingDestroy { tid: a, extreme: b, tag: c }
        } else if index == 138 {
            Special::TeamGivePoints { team: a, points: b, announce: c }
        } else if index == 139 {
            Special::TeleportNoStop { tid: a, sectortag: b, nofog: c }
        } else if index == 143 {
            Special::SectorSetPlaneReflection { tag: a, floor: b, ceiling: c }
        } else if index == 145 {
            Special::SectorSetContents { _type: a, translucency: b, flags: c }
        } else if index == 148 {
            Special::SectorSetCeilingScale2 { tag: a, u_fixed: b, v_fixed: c }
        } else if index == 149 {
            Special::SectorSetFloorScale2 { tag: a, u_fixed: b, v_fixed: c }
        } else if index == 150 {
            Special::PlatUpNearestWaitDownStay { tag: a, speed: b, delay: c }
        } else if index == 155 {
            Special::ThingHate { hater: a, hatee: b, _type: c }
        } else if index == 159 {
            Special::PlaneAlign { floor: a, ceiling: b, lineid: c }
        } else if index == 163 {
            Special::SectorSetRotation { tag: a, floor: b, ceiling: c }
        } else if index == 169 {
            Special::SetPlayerProperty { who: a, set: b, which: c }
        } else if index == 171 {
            Special::CeilingLowerInstant { tag: a, arg1: b, height: c }
        } else if index == 172 {
            Special::CeilingRaiseInstant { tag: a, arg1: b, height: c }
        } else if index == 176 {
            Special::CeilingRaiseByValueTimes8 { tag: a, speed: b, height: c }
        } else if index == 177 {
            Special::CeilingLowerByValueTimes8 { tag: a, speed: b, height: c }
        } else if index == 193 {
            Special::TeleportLine { thisid: a, destid: b, flip: c }
        } else if index == 194 {
            Special::SectorSetGravity { tag: a, ipart: b, fpart: c }
        } else if index == 206 {
            Special::PlatRaiseAndStayTx0 { tag: a, speed: b, lockout: c }
        } else if index == 208 {
            Special::PlatUpByValueStayTx { tag: a, speed: b, height: c }
        } else if index == 210 {
            Special::LightStrobeDoom { tag: a, u_tics: b, i_tics: c }
        } else if index == 215 {
            Special::ChangeCamera { tid: a, who: b, revert: c }
        } else if index == 217 {
            Special::FloorRaiseByValueTxTy { tag: a, speed: b, height: c }
        } else if index == 228 {
            Special::FloorDonut { ptag: a, pspeed: b, sspeed: c }
        } else if index == 234 {
            Special::FloorLowerToHighestEE { tag: a, speed: b, change: c }
        } else if index == 235 {
            Special::FloorRaiseToLowest { tag: a, change: b, crush: c }
        } else if index == 236 {
            Special::FloorLowerToLowestCeiling { tag: a, speed: b, change: c }
        } else if index == 240 {
            Special::CeilingRaiseToHighest { tag: a, speed: b, change: c }
        } else if index == 241 {
            Special::CeilingToHighestInstant { tag: a, change: b, crush: c }
        } else if index == 243 {
            Special::CeilingRaiseToLowest { tag: a, speed: b, change: c }
        } else if index == 244 {
            Special::CeilingRaiseToHighestFloor { tag: a, speed: b, change: c }
        } else {
            Special::CeilingRaiseByTexture { tag: a, speed: b, change: c }
        }
    }

    /// The variant with the given index, which has three arguments.
    fn with_three(index: usize, a: i16, b: i16, c: i16) -> (s: Self)
        requires
            ARG_COUNTS@[index as int] == 3,
        ensures
            s == Special::with_three_spec(index as int, a, b, c),
    {
        match index {
            1 => Special::PolyobjStartLine { po: a, mirror: b, sound: c },
            2 => Special::PolyobjRotateLeft { po: a, speed: b, angle: c },
            3 => Special::PolyobjRotateRight { po: a, speed: b, angle: c },
            10 => Special::DoorClose { tag: a, speed: b, light_tag: c },
            11 => Special::DoorOpen { tag: a, speed: b, light_tag: c },
            20 => Special::FloorLowerByValue { tag: a, speed: b, height: c },
            23 => Special::FloorRaiseByValue { tag: a, speed: b, height: c },
            29 => Special::PillarBuild { tag: a, speed: b, height: c },
            35 => Special::FloorRaiseByValueTimes8 { tag: a, speed: b, height: c },
            36 => Special::FloorLowerByValueTimes8 { tag: a, speed: b, height: c },
            40 => Special::CeilingLowerByValue { tag: a, speed: b, height: c },
            41 => Special::CeilingRaiseByValue { tag: a, speed: b, height: c },
            48 => Special::SectorAttach3dMidtex { lineid: a, tag: b, floororceiling: c },
            54 => Special::SectorChangeFlags { tag: a, setflags: b, clearflags: c },
            55 => Special::LineSetBlocking { lineid: a, setflags: b, clearflags: c },
            59 => Special::PolyobjOrMoveToSpot { po: a, speed: b, target: c },
            60 => Special::PlatPerpetualRaise { tag: a, speed: b, delay: c },
            62 => Special::PlatDownWaitUpStay { tag: a, speed: b, delay: c },
            64 => Special::PlatUpWaitDownStay { tag: a, speed: b, delay: c },
            66 => Special::FloorLowerInstant { tag: a, arg1: b, height: c },
            67 => Special::FloorRaiseInstant { tag: a, arg1: b, height: c },
            70 => Special::Teleport { tid: a, tag: b, nosourcefog: c },
            74 => Special::TeleportNewMap { map: a, pos: b, face: c },
            76 => Special::TeleportOther { tid: a, destination: b, fog: c },
            86 => Special::PolyobjMoveToSpot { po: a, speed: b, target: c },
            90 => Special::PolyobjOrRotateLeft { po: a, speed: b, angle: c },
            91 => Special::PolyobjOrRotateRight { po: a, speed: b, angle: c },
            95 => Special::FloorAndCeilingLowerByValue { tag: a, speed: b, value: c },
            96 => Special::FloorAndCeilingRaiseByValue { tag: a, speed: b, value: c },
            112 => Special::LightFade { tag: a, value: b, tics: c },
            114 => Special::LightFlicker { tag: a, upper: b, lower: c },
            118 => Special::ThingDamage { tid: a, amount: b, _mod: c },
            120 => Special::LineSetIdentification { lineid: a, moreflags: b, lineid_hi: c },
            121 => Special::ThingMove { tid: a, destid: b, nofog: c },
            128 => Special::ThingDestroy { tid: a, extreme: b, tag: c },
            138 => Special::TeamGivePoints { team: a, points: b, announce: c },
            139 => Special::TeleportNoStop { tid: a, sectortag: b, nofog: c },
            143 => Special::SectorSetPlaneReflection { tag: a, floor: b, ceiling: c },
            145 => Special::SectorSetContents { _type: a, translucency: b, flags: c },
            148 => Special::SectorSetCeilingScale2 { tag: a, u_fixed: b, v_fixed: c },
            149 => Special::SectorSetFloorScale2 { tag: a, u_fixed: b, v_fixed: c },
            150 => Special::PlatUpNearestWaitDownStay { tag: a, speed: b, delay: c },
            155 => Special::ThingHate { hater: a, hatee: b, _type: c },
            159 => Special::PlaneAlign { floor: a, ceiling: b, lineid: c },
            163 => Special::SectorSetRotation { tag: a, floor: b, ceiling: c },
            169 => Special::SetPlayerProperty { who: a, set: b, which: c },
            171 => Special::CeilingLowerInstant { tag: a, arg1: b, height: c },
            172 => Special::CeilingRaiseInstant { tag: a, arg1: b, height: c },
            176 => Special::CeilingRaiseByValueTimes8 { tag: a, speed: b, height: c },
            177 => Special::CeilingLowerByValueTimes8 { tag: a, speed: b, height: c },
            193 => Special::TeleportLine { thisid: a, destid: b, flip: c },
            194 => Special::SectorSetGravity { tag: a, ipart: b, fpart: c },
            206 => Special::PlatRaiseAndStayTx0 { tag: a, speed: b, lockout: c },
            208 => Special::PlatUpByValueStayTx { tag: a, speed: b, height: c },
            210 => Special::LightStrobeDoom { tag: a, u_tics: b, i_tics: c },
            215 => Special::ChangeCamera { tid: a, who: b, revert: c },
            217 => Special::FloorRaiseByValueTxTy { tag: a, speed: b, height: c },
            228 => Special::FloorDonut { ptag: a, pspeed: b, sspeed: c },
            234 => Special::FloorLowerToHighestEE { tag: a, speed: b, change: c },
            235 => Special::FloorRaiseToLowest { tag: a, change: b, crush: c },
            236 => Special::FloorLowerToLowestCeiling { tag: a, speed: b, change: c },
            240 => Special::CeilingRaiseToHighest { tag: a, speed: b, change: c },
            241 => Special::CeilingToHighestInstant { tag: a, change: b, crush: c },
            243 => Special::CeilingRaiseToLowest { tag: a, speed: b, change: c },
            244 => Special::CeilingRaiseToHighestFloor { tag: a, speed: b, change: c },
            _ => Special::CeilingRaiseByTexture { tag: a, speed: b, change: c },
        }
    }

    /// A variant made of an index and three arguments has that index and those arguments.
    proof fn lemma_with_three(index: int, a: i16, b: i16, c: i16)
        requires
            0 <= index < SPECIAL_COUNT,
            ARG_COUNTS@[index] == 3,
        ensures
            Special::with_three_spec(index, a, b, c).index_spec() == index,
            Special::with_three_spec(index, a, b, c).args_spec() == seq![a, b, c, 0i16, 0i16],
    {
        assert(Special::with_three_spec(index, a, b, c).args_spec() =~= seq![a, b, c, 0i16, 0i16]);
    }

    /// The variant with the given index, which has four arguments.
    pub open spec fn with_four_spec(index: int, a: i16, b: i16, c: i16, d: i16) -> Special {
        if index == 4 {
            Special::PolyobjMove { po: a, speed: b, angle: c, dist: d }
        } else if index == 5 {
            Special::PolyobjExplicitLine { po: a, order: b, mirror: c, sound: d }
        } else if index == 6 {
            Special::PolyobjMoveTimes8 { po: a, speed: b, angle: c, dist: d }
        } else if index == 7 {
            Special::PolyobjDoorSwing { po: a, speed: b, angle: c, delay: d }
        } else if index == 12 {
            Special::DoorRaise { tag: a, speed: b, delay: c, light_tag: d }
        } else if index == 14 {
            Special::DoorAnimated { tag: a, speed: b, delay: c, lock: d }
        } else if index == 28 {
            Special::FloorRaiseAndCrush { tag: a, speed: b, crush: c, crushmode: d }
        } else if index == 30 {
            Special::PillarOpen { tag: a, speed: b, fdist: c, cdist: d }
        } else if index == 31 {
            Special::StairsBuildDownSync { tag: a, speed: b, height: c, reset: d }
        } else if index == 32 {
            Special::StairsBuildUpSync { tag: a, speed: b, height: c, reset: d }
        } else if index == 37 {
            Special::FloorMoveToValue { tag: a, speed: b, height: c, neg: d }
        } else if index == 42 {
            Special::CeilingCrushAndRaise { tag: a, speed: b, crush: c, crushmode: d }
        } else if index == 43 {
            Special::CeilingLowerAndCrush { tag: a, speed: b, crush: c, crushmode: d }
        } else if index == 45 {
            Special::CeilingCrushRaiseAndStay { tag: a, speed: b, crush: c, crushmode: d }
        } else if index == 47 {
            Special::CeilingMoveToValue { tag: a, speed: b, height: c, neg: d }
        } else if index == 51 {
            Special::SectorSetLink { controltag: a, tag: b, surface: c, _type: d }
        } else if index == 63 {
            Special::PlatDownByValue { tag: a, speed: b, delay: c, height: d }
        } else if index == 65 {
            Special::PlatUpByValue { tag: a, speed: b, delay: c, height: d }
        } else if index == 68 {
            Special::FloorMoveToValueTimes8 { tag: a, speed: b, height: c, neg: d }
        } else if index == 69 {
            Special::CeilingMoveToValueTimes8 { tag: a, speed: b, height: c, neg: d }
        } else if index == 71 {
            Special::TeleportNoFog { tid: a, useangle: b, tag: c, keepheight: d }
        } else if index == 72 {
            Special::ThrustThing { angle: a, force: b, nolimit: c, tid: d }
        } else if index == 88 {
            Special::PolyobjMoveTo { po: a, speed: b, pos_x: c, pos_y: d }
        } else if index == 89 {
            Special::PolyobjOrMoveTo { po: a, speed: b, pos_x: c, pos_y: d }
        } else if index == 92 {
            Special::PolyobjOrMove { po: a, speed: b, angle: c, dist: d }
        } else if index == 93 {
            Special::PolyobjOrMoveTimes8 { po: a, speed: b, angle: c, dist: d }
        } else if index == 98 {
            Special::SectorSetTranslucent { tag: a, plane: b, amount: c, _type: d }
        } else if index == 99 {
            Special::FloorRaiseAndCrushDoom { tag: a, speed: b, crush: c, crushmode: d }
        } else if index == 106 {
            Special::DoorWaitClose { tag: a, speed: b, wait: c, lighttag: d }
        } else if index == 113 {
            Special::LightGlow { tag: a, upper: b, lower: c, tics: d }
        } else if index == 123 {
            Special::ThrustThingZ { tid: a, force: b, updown: c, setadd: d }
        } else if index == 130 {
            Special::ThingSpawn { tid: a, _type: b, angle: c, newtid: d }
        } else if index == 132 {
            Special::ThingSpawnNoFog { tid: a, _type: b, angle: c, newtid: d }
        } else if index == 134 {
            Special::ThingSpawnFacing { tid: a, _type: b, nofog: c, newtid: d }
        } else if index == 140 {
            Special::LineSetPortal { targetline: a, thisline: b, _type: c, planeanchor: d }
        } else if index == 142 {
            Special::FsExecute { scriptnumber: a, side: b, keynum: c, message: d }
        } else if index == 152 {
            Special::SendToCommunicator { voc_id: a, front_only: b, identify: c, nolog: d }
        } else if index == 168 {
            Special::StaticInit { tag: a, prop: b, flip_ceiling: c, movetype: d }
        } else if index == 185 {
            Special::PlatPerpetualRaiseLip { tag: a, speed: b, delay: c, lip: d }
        } else if index == 186 {
            Special::TranslucentLine { lineid: a, amount: b, additive: c, moreflags: d }
        } else if index == 191 {
            Special::SectorSetFade { tag: a, r: b, g: c, b: d }
        } else if index == 196 {
            Special::SectorSetWind { tag: a, amount: b, angle: c, useline: d }
        } else if index == 198 {
            Special::SectorSetCurrent { tag: a, amount: b, angle: c, useline: d }
        } else if index == 205 {
            Special::PointPushSetForce { tag: a, tid: b, amount: c, useline: d }
        } else if index == 207 {
            Special::ThingSetGoal { tid: a, goal: b, delay: c, dontchasetarget: d }
        } else if index == 220 {
            Special::FloorLowerToHighest { tag: a, speed: b, adjust: c, force_adjust: d }
        } else if index == 227 {
            Special::DoorCloseWaitOpen { tag: a, speed: b, delay: c, lighttag: d }
        } else if index == 229 {
            Special::FloorAndCeilingLowerRaise { tag: a, fspeed: b, cspeed: c, boomemu: d }
        } else if index == 238 {
            Special::FloorToCeilingInstant { tag: a, change: b, crush: c, gap: d }
        } else if index == 239 {
            Special::FloorLowerByTexture { tag: a, speed: b, change: c, crush: d }
        } else if index == 242 {
            Special::CeilingLowerToNearest { tag: a, speed: b, change: c, crush: d }
        } else if index == 245 {
            Special::CeilingToFloorInstant { tag: a, change: b, crush: c, gap: d }
        } else if index == 247 {
            Special::CeilingLowerByTexture { tag: a, speed: b, change: c, crush: d }
        } else if index == 249 {
            Special::StairsBuildUpDoomSync { tag: a, speed: b, height: c, reset: d }
        } else {
            Special::StairsBuildDownDoomSync { tag: a, speed: b, height: c, reset: d }
        }
    }

    /// The variant with the given index, which has four arguments.
    fn with_four(index: usize, a: i16, b: i16, c: i16, d: i16) -> (s: Self)
        requires
            ARG_COUNTS@[index as int] == 4,
        ensures
            s == Special::with_four_spec(index as int, a, b, c, d),
    {
        match index {
            4 => Special::PolyobjMove { po: a, speed: b, angle: c, dist: d },
            5 => Special::PolyobjExplicitLine { po: a, order: b, mirror: c, sound: d },
            6 => Special::PolyobjMoveTimes8 { po: a, speed: b, angle: c, dist: d },
            7 => Special::PolyobjDoorSwing { po: a, speed: b, angle: c, delay: d },
            12 => Special::DoorRaise { tag: a, speed: b, delay: c, light_tag: d },
            14 => Special::DoorAnimated { tag: a, speed: b, delay: c, lock: d },
            28 => Special::FloorRaiseAndCrush { tag: a, speed: b, crush: c, crushmode: d },
            30 => Special::PillarOpen { tag: a, speed: b, fdist: c, cdist: d },
            31 => Special::StairsBuildDownSync { tag: a, speed: b, height: c, reset: d },
            32 => Special::StairsBuildUpSync { tag: a, speed: b, height: c, reset: d },
            37 => Special::FloorMoveToValue { tag: a, speed: b, height: c, neg: d },
            42 => Special::CeilingCrushAndRaise { tag: a, speed: b, crush: c, crushmode: d },
            43 => Special::CeilingLowerAndCrush { tag: a, speed: b, crush: c, crushmode: d },
            45 => Special::CeilingCrushRaiseAndStay { tag: a, speed: b, crush: c, crushmode: d },
            47 => Special::CeilingMoveToValue { tag: a, speed: b, height: c, neg: d },
            51 => Special::SectorSetLink { controltag: a, tag: b, surface: c, _type: d },
            63 => Special::PlatDownByValue { tag: a, speed: b, delay: c, height: d },
            65 => Special::PlatUpByValue { tag: a, speed: b, delay: c, height: d },
            68 => Special::FloorMoveToValueTimes8 { tag: a, speed: b, height: c, neg: d },
            69 => Special::CeilingMoveToValueTimes8 { tag: a, speed: b, height: c, neg: d },
            71 => Special::TeleportNoFog { tid: a, useangle: b, tag: c, keepheight: d },
            72 => Special::ThrustThing { angle: a, force: b, nolimit: c, tid: d },
            88 => Special::PolyobjMoveTo { po: a, speed: b, pos_x: c, pos_y: d },
            89 => Special::PolyobjOrMoveTo { po: a, speed: b, pos_x: c, pos_y: d },
            92 => Special::PolyobjOrMove { po: a, speed: b, angle: c, dist: d },
            93 => Special::PolyobjOrMoveTimes8 { po: a, speed: b, angle: c, dist: d },
            98 => Special::SectorSetTranslucent { tag: a, plane: b, amount: c, _type: d },
            99 => Special::FloorRaiseAndCrushDoom { tag: a, speed: b, crush: c, crushmode: d },
            106 => Special::DoorWaitClose { tag: a, speed: b, wait: c, lighttag: d },
            113 => Special::LightGlow { tag: a, upper: b, lower: c, tics: d },
            123 => Special::ThrustThingZ { tid: a, force: b, updown: c, setadd: d },
            130 => Special::ThingSpawn { tid: a, _type: b, angle: c, newtid: d },
            132 => Special::ThingSpawnNoFog { tid: a, _type: b, angle: c, newtid: d },
            134 => Special::ThingSpawnFacing { tid: a, _type: b, nofog: c, newtid: d },
            140 => Special::LineSetPortal { targetline: a, thisline: b, _type: c, planeanchor: d },
            142 => Special::FsExecute { scriptnumber: a, side: b, keynum: c, message: d },
            152 => Special::SendToCommunicator { voc_id: a, front_only: b, identify: c, nolog: d },
            168 => Special::StaticInit { tag: a, prop: b, flip_ceiling: c, movetype: d },
            185 => Special::PlatPerpetualRaiseLip { tag: a, speed: b, delay: c, lip: d },
            186 => Special::TranslucentLine { lineid: a, amount: b, additive: c, moreflags: d },
            191 => Special::SectorSetFade { tag: a, r: b, g: c, b: d },
            196 => Special::SectorSetWind { tag: a, amount: b, angle: c, useline: d },
            198 => Special::SectorSetCurrent { tag: a, amount: b, angle: c, useline: d },
            205 => Special::PointPushSetForce { tag: a, tid: b, amount: c, useline: d },
            207 => Special::ThingSetGoal { tid: a, goal: b, delay: c, dontchasetarget: d },
            220 => Special::FloorLowerToHighest { tag: a, speed: b, adjust: c, force_adjust: d },
            227 => Special::DoorCloseWaitOpen { tag: a, speed: b, delay: c, lighttag: d },
            229 => Special::FloorAndCeilingLowerRaise { tag: a, fspeed: b, cspeed: c, boomemu: d },
            238 => Special::FloorToCeilingInstant { tag: a, change: b, crush: c, gap: d },
            239 => Special::FloorLowerByTexture { tag: a, speed: b, change: c, crush: d },
            242 => Special::CeilingLowerToNearest { tag: a, speed: b, change: c, crush: d },
            245 => Special::CeilingToFloorInstant { tag: a, change: b, crush: c, gap: d },
            247 => Special::CeilingLowerByTexture { tag: a, speed: b, change: c, crush: d },
            249 => Special::StairsBuildUpDoomSync { tag: a, speed: b, height: c, reset: d },
            _ => Special::StairsBuildDownDoomSync { tag: a, speed: b, height: c, reset: d },
        }
    }

    /// A variant made of an index and four arguments has that index and those arguments.
    proof fn lemma_with_four(index: int, a: i16, b: i16, c: i16, d: i16)
        requires
            0 <= index < SPECIAL_COUNT,
            ARG_COUNTS@[index] == 4,
        ensures
            Special::with_four_spec(index, a, b, c, d).index_spec() == index,
            Special::with_four_spec(index, a, b, c, d).args_spec() == seq![a, b, c, d, 0i16],
    {
        assert(Special::with_four_spec(index, a, b, c, d).args_spec() =~= seq![a, b, c, d, 0i16]);
    }

    /// The variant with the given index, which has five arguments.
    pub open spec fn with_five_spec(index: int, a: i16, b: i16, c: i16, d: i16, e: i16) -> Special {
        if index == 8 {
            Special::PolyobjDoorSlide { po: a, speed: b, angle: c, dist: d, delay: e }
        } else if index == 13 {
            Special::DoorRaiseLocked { tag: a, speed: b, delay: c, lock: d, lighttag: e }
        } else if index == 26 {
            Special::StairsBuildDown { tag: a, speed: b, height: c, delay: d, reset: e }
        } else if index == 27 {
            Special::StairsBuildUp { tag: a, speed: b, height: c, delay: d, reset: e }
        } else if index == 38 {
            Special::CeilingWaggle { tag: a, amp: b, freq: c, offset: d, time: e }
        } else if index == 52 {
            Special::ScrollWall { lineid: a, x: b, y: c, side: d, flags: e }
        } else if index == 53 {
            Special::LineSetTextureOffset { lineid: a, x: b, y: c, side: d, flags: e }
        } else if index == 56 {
            Special::LineSetTextureScale { lineid: a, x: b, y: c, side: d, flags: e }
        } else if index == 57 {
            Special::SectorSetPortal { tag: a, _type: b, plane: c, misc: d, alpha: e }
        } else if index == 77 {
            Special::TeleportGroup { tid: a, source: b, destination: c, movesource: d, fog: e }
        } else if index == 78 {
            Special::TeleportInSector { tag: a, source_tid: b, dest_tid: c, fog: d, group_tid: e }
        } else if index == 80 {
            Special::AcsExecute { script: a, map: b, s_arg1: c, s_arg2: d, s_arg3: e }
        } else if index == 83 {
            Special::AcsLockedExecute { script: a, map: b, s_arg1: c, s_arg2: d, lock: e }
        } else if index == 84 {
            Special::AcsExecuteWithResult { script: a, s_arg1: b, s_arg2: c, s_arg3: d, s_arg4: e }
        } else if index == 85 {
            Special::AcsLockedExecuteDoor { script: a, map: b, s_arg1: c, s_arg2: d, lock: e }
        } else if index == 94 {
            Special::PillarBuildAndCrush { tag: a, speed: b, height: c, crush: d, crushmode: e }
        } else if index == 97 {
            Special::CeilingLowerAndCrushDist { tag: a, speed: b, crush: c, dist: d, crushmode: e }
        } else if index == 104 {
            Special::CeilingCrushAndRaiseSilentDist { tag: a, dist: b, speed: c, crush: d, crushmode: e }
        } else if index == 105 {
            Special::DoorWaitRaise { tag: a, speed: b, delay: c, wait: d, lighttag: e }
        } else if index == 115 {
            Special::LightStrobe { tag: a, upper: b, lower: c, u_tics: d, i_tics: e }
        } else if index == 117 {
            Special::PlaneCopy { front_floor: a, front_ceiling: b, back_floor: c, back_ceiling: d, share: e }
        } else if index == 119 {
            Special::RadiusQuake { intensity: a, duration: b, damrad: c, temrad: d, tid: e }
        } else if index == 122 {
            Special::ThingSetSpecial { tid: a, special: b, arg0: c, arg1: d, arg2: e }
        } else if index == 124 {
            Special::UsePuzzleItem { item: a, script: b, s_arg1: c, s_arg2: d, s_arg3: e }
        } else if index == 129 {
            Special::ThingProjectile { tid: a, _type: b, angle: c, speed: d, vspeed: e }
        } else if index == 131 {
            Special::ThingProjectileGravity { tid: a, _type: b, angle: c, speed: d, vspeed: e }
        } else if index == 133 {
            Special::FloorWaggle { tag: a, amp: b, freq: c, offset: d, time: e }
        } else if index == 144 {
            Special::SectorSet3dFloor { tag: a, _type: b, flags: c, alpha: d, hitag_lineid: e }
        } else if index == 146 {
            Special::CeilingCrushAndRaiseDist { tag: a, dist: b, speed: c, crush: d, crushmode: e }
        } else if index == 147 {
            Special::GenericCrusher2 { tag: a, dspeed: b, uspeed: c, silent: d, crush: e }
        } else if index == 153 {
            Special::ThingProjectileIntercept { tid: a, _type: b, speed: c, target: d, newtid: e }
        } else if index == 156 {
            Special::ThingProjectileAimed { tid: a, _type: b, speed: c, target: d, newtid: e }
        } else if index == 164 {
            Special::SectorSetCeilingPanning { tag: a, u_int: b, u_frac: c, v_int: d, v_frac: e }
        } else if index == 165 {
            Special::SectorSetFloorPanning { tag: a, u_int: b, u_frac: c, v_int: d, v_frac: e }
        } else if index == 166 {
            Special::SectorSetCeilingScale { tag: a, u_int: b, u_frac: c, v_int: d, v_frac: e }
        } else if index == 167 {
            Special::SectorSetFloorScale { tag: a, u_int: b, u_frac: c, v_int: d, v_frac: e }
        } else if index == 173 {
            Special::CeilingCrushRaiseAndStayA { tag: a, dspeed: b, uspeed: c, crush: d, crushmode: e }
        } else if index == 174 {
            Special::CeilingCrushAndRaiseA { tag: a, dspeed: b, uspeed: c, crush: d, crushmode: e }
        } else if index == 175 {
            Special::CeilingCrushAndRaiseSilentA { tag: a, dspeed: b, uspeed: c, crush: d, crushmode: e }
        } else if index == 178 {
            Special::GenericFloor { tag: a, speed: b, height: c, target: d, flags: e }
        } else if index == 179 {
            Special::GenericCeiling { tag: a, speed: b, height: c, target: d, flags: e }
        } else if index == 180 {
            Special::GenericDoor { tag: a, speed: b, kind: c, delay: d, lock: e }
        } else if index == 181 {
            Special::GenericLift { tag: a, speed: b, delay: c, _type: d, height: e }
        } else if index == 182 {
            Special::GenericStairs { tag: a, speed: b, height: c, flags: d, reset: e }
        } else if index == 183 {
            Special::GenericCrusher { tag: a, dspeed: b, uspeed: c, silent: d, crush: e }
        } else if index == 184 {
            Special::PlatDownWaitUpStayLip { tag: a, speed: b, delay: c, lip: d, sound: e }
        } else if index == 190 {
            Special::SectorSetColor { tag: a, r: b, g: c, b: d, desat: e }
        } else if index == 192 {
            Special::SectorSetDamage { tag: a, amount: b, _mod: c, interval: d, leaky: e }
        } else if index == 195 {
            Special::StairsBuildUpDoom { tag: a, speed: b, height: c, delay: d, reset: e }
        } else if index == 199 {
            Special::ScrollTextureBoth { lineid: a, left: b, right: c, down: d, up: e }
        } else if index == 201 {
            Special::ScrollFloor { tag: a, scrollbits: b, _type: c, x_move: d, y_move: e }
        } else if index == 202 {
            Special::ScrollCeiling { tag: a, scrollbits: b, unused: c, x_move: d, y_move: e }
        } else if index == 204 {
            Special::AcsExecuteAlways { script: a, map: b, s_arg1: c, s_arg2: d, s_arg3: e }
        } else if index == 233 {
            Special::CeilingCrushRaiseAndStaySilA { tag: a, dspeed: b, uspeed: c, crush: d, crusmode: e }
        } else if index == 237 {
            Special::FloorRaiseToCeiling { tag: a, speed: b, change: c, crush: d, gap: e }
        } else if index == 248 {
            Special::StairsBuildDownDoom { tag: a, speed: b, height: c, delay: d, reset: e }
        } else if index == 251 {
            Special::StairsBuildUpDoomCrush { tag: a, speed: b, height: c, delay: d, reset: e }
        } else if index == 255 {
            Special::SectorSetFloorGlow { tag: a, height: b, r: c, g: d, b: e }
        } else if index == 256 {
            Special::SectorSetCeilingGlow { tag: a, height: b, r: c, g: d, b: e }
        } else if index == 257 {
            Special::FloorMoveToValueAndCrush { tag: a, speed: b, height: c, crush: d, crushmode: e }
        } else {
            Special::CeilingMoveToValueAndCrush { tag: a, speed: b, height: c, crush: d, crushmode: e }
        }
    }

    /// The variant with the given index, which has five arguments.
    fn with_five(index: usize, a: i16, b: i16, c: i16, d: i16, e: i16) -> (s: Self)
        requires
            ARG_COUNTS@[index as int] == 5,
        ensures
            s == Special::with_five_spec(index as int, a, b, c, d, e),
    {
        match index {
            8 => Special::PolyobjDoorSlide { po: a, speed: b, angle: c, dist: d, delay: e },
            13 => Special::DoorRaiseLocked { tag: a, speed: b, delay: c, lock: d, lighttag: e },
            26 => Special::StairsBuildDown { tag: a, speed: b, height: c, delay: d, reset: e },
            27 => Special::StairsBuildUp { tag: a, speed: b, height: c, delay: d, reset: e },
            38 => Special::CeilingWaggle { tag: a, amp: b, freq: c, offset: d, time: e },
            52 => Special::ScrollWall { lineid: a, x: b, y: c, side: d, flags: e },
            53 => Special::LineSetTextureOffset { lineid: a, x: b, y: c, side: d, flags: e },
            56 => Special::LineSetTextureScale { lineid: a, x: b, y: c, side: d, flags: e },
            57 => Special::SectorSetPortal { tag: a, _type: b, plane: c, misc: d, alpha: e },
            77 => Special::TeleportGroup { tid: a, source: b, destination: c, movesource: d, fog: e },
            78 => Special::TeleportInSector { tag: a, source_tid: b, dest_tid: c, fog: d, group_tid: e },
            80 => Special::AcsExecute { script: a, map: b, s_arg1: c, s_arg2: d, s_arg3: e },
            83 => Special::AcsLockedExecute { script: a, map: b, s_arg1: c, s_arg2: d, lock: e },
            84 => Special::AcsExecuteWithResult { script: a, s_arg1: b, s_arg2: c, s_arg3: d, s_arg4: e },
            85 => Special::AcsLockedExecuteDoor { script: a, map: b, s_arg1: c, s_arg2: d, lock: e },
            94 => Special::PillarBuildAndCrush { tag: a, speed: b, height: c, crush: d, crushmode: e },
            97 => Special::CeilingLowerAndCrushDist { tag: a, speed: b, crush: c, dist: d, crushmode: e },
            104 => Special::CeilingCrushAndRaiseSilentDist { tag: a, dist: b, speed: c, crush: d, crushmode: e },
            105 => Special::DoorWaitRaise { tag: a, speed: b, delay: c, wait: d, lighttag: e },
            115 => Special::LightStrobe { tag: a, upper: b, lower: c, u_tics: d, i_tics: e },
            117 => Special::PlaneCopy { front_floor: a, front_ceiling: b, back_floor: c, back_ceiling: d, share: e },
            119 => Special::RadiusQuake { intensity: a, duration: b, damrad: c, temrad: d, tid: e },
            122 => Special::ThingSetSpecial { tid: a, special: b, arg0: c, arg1: d, arg2: e },
            124 => Special::UsePuzzleItem { item: a, script: b, s_arg1: c, s_arg2: d, s_arg3: e },
            129 => Special::ThingProjectile { tid: a, _type: b, angle: c, speed: d, vspeed: e },
            131 => Special::ThingProjectileGravity { tid: a, _type: b, angle: c, speed: d, vspeed: e },
            133 => Special::FloorWaggle { tag: a, amp: b, freq: c, offset: d, time: e },
            144 => Special::SectorSet3dFloor { tag: a, _type: b, flags: c, alpha: d, hitag_lineid: e },
            146 => Special::CeilingCrushAndRaiseDist { tag: a, dist: b, speed: c, crush: d, crushmode: e },
            147 => Special::GenericCrusher2 { tag: a, dspeed: b, uspeed: c, silent: d, crush: e },
            153 => Special::ThingProjectileIntercept { tid: a, _type: b, speed: c, target: d, newtid: e },
            156 => Special::ThingProjectileAimed { tid: a, _type: b, speed: c, target: d, newtid: e },
            164 => Special::SectorSetCeilingPanning { tag: a, u_int: b, u_frac: c, v_int: d, v_frac: e },
            165 => Special::SectorSetFloorPanning { tag: a, u_int: b, u_frac: c, v_int: d, v_frac: e },
            166 => Special::SectorSetCeilingScale { tag: a, u_int: b, u_frac: c, v_int: d, v_frac: e },
            167 => Special::SectorSetFloorScale { tag: a, u_int: b, u_frac: c, v_int: d, v_frac: e },
            173 => Special::CeilingCrushRaiseAndStayA { tag: a, dspeed: b, uspeed: c, crush: d, crushmode: e },
            174 => Special::CeilingCrushAndRaiseA { tag: a, dspeed: b, uspeed: c, crush: d, crushmode: e },
            175 => Special::CeilingCrushAndRaiseSilentA { tag: a, dspeed: b, uspeed: c, crush: d, crushmode: e },
            178 => Special::GenericFloor { tag: a, speed: b, height: c, target: d, flags: e },
            179 => Special::GenericCeiling { tag: a, speed: b, height: c, target: d, flags: e },
            180 => Special::GenericDoor { tag: a, speed: b, kind: c, delay: d, lock: e },
            181 => Special::GenericLift { tag: a, speed: b, delay: c, _type: d, height: e },
            182 => Special::GenericStairs { tag: a, speed: b, height: c, flags: d, reset: e },
            183 => Special::GenericCrusher { tag: a, dspeed: b, uspeed: c, silent: d, crush: e },
            184 => Special::PlatDownWaitUpStayLip { tag: a, speed: b, delay: c, lip: d, sound: e },
            190 => Special::SectorSetColor { tag: a, r: b, g: c, b: d, desat: e },
            192 => Special::SectorSetDamage { tag: a, amount: b, _mod: c, interval: d, leaky: e },
            195 => Special::StairsBuildUpDoom { tag: a, speed: b, height: c, delay: d, reset: e },
            199 => Special::ScrollTextureBoth { lineid: a, left: b, right: c, down: d, up: e },
            201 => Special::ScrollFloor { tag: a, scrollbits: b, _type: c, x_move: d, y_move: e },
            202 => Special::ScrollCeiling { tag: a, scrollbits: b, unused: c, x_move: d, y_move: e },
            204 => Special::AcsExecuteAlways { script: a, map: b, s_arg1: c, s_arg2: d, s_arg3: e },
            233 => Special::CeilingCrushRaiseAndStaySilA { tag: a, dspeed: b, uspeed: c, crush: d, crusmode: e },
            237 => Special::FloorRaiseToCeiling { tag: a, speed: b, change: c, crush: d, gap: e },
            248 => Special::StairsBuildDownDoom { tag: a, speed: b, height: c, delay: d, reset: e },
            251 => Special::StairsBuildUpDoomCrush { tag: a, speed: b, height: c, delay: d, reset: e },
            255 => Special::SectorSetFloorGlow { tag: a, height: b, r: c, g: d, b: e },
            256 => Special::SectorSetCeilingGlow { tag: a, height: b, r: c, g: d, b: e },
            257 => Special::FloorMoveToValueAndCrush { tag: a, speed: b, height: c, crush: d, crushmode: e },
            _ => Special::CeilingMoveToValueAndCrush { tag: a, speed: b, height: c, crush: d, crushmode: e },
        }
    }

    /// A variant made of an index and five arguments has that index and those arguments.
    proof fn lemma_with_five(index: int, a: i16, b: i16, c: i16, d: i16, e: i16)
        requires
            0 <= index < SPECIAL_COUNT,
            ARG_COUNTS@[index] == 5,
        ensures
            Special::with_five_spec(index, a, b, c, d, e).index_spec() == index,
            Special::with_five_spec(index, a, b, c, d, e).args_spec() == seq![a, b, c, d, e],
    {
        assert(Special::with_five_spec(index, a, b, c, d, e).args_spec() =~= seq![a, b, c, d, e]);
    }

    /// The variant with the given index, its arguments taken from the leading slots of
    /// `args`.
    pub open spec fn of_parts(index: int, args: Seq<i16>) -> Special {
        let count = ARG_COUNTS@[index];
        if count == 0 {
            Special::with_none_spec(index)
        } else if count == 1 {
            Special::with_one_spec(index, args[0])
        } else if count == 2 {
            Special::with_two_spec(index, args[0], args[1])
        } else if count == 3 {
            Special::with_three_spec(index, args[0], args[1], args[2])
        } else if count == 4 {
            Special::with_four_spec(index, args[0], args[1], args[2], args[3])
        } else {
            Special::with_five_spec(index, args[0], args[1], args[2], args[3], args[4])
        }
    }

    /// The variant made of an index and argument slots has that index and those slots,
    /// where the slots that the variant does not use hold zero.
    pub proof fn lemma_of_parts(index: int, args: Seq<i16>)
        requires
            0 <= index < SPECIAL_COUNT,
            args.len() == 5,
            forall|k: int| ARG_COUNTS@[index] <= k < 5 ==> args[k] == 0,
        ensures
            Special::of_parts(index, args).index_spec() == index,
            Special::of_parts(index, args).args_spec() == args,
    {
        let count = ARG_COUNTS@[index];
        if count == 0 {
            Special::lemma_with_none(index);
        } else if count == 1 {
            Special::lemma_with_one(index, args[0]);
        } else if count == 2 {
            Special::lemma_with_two(index, args[0], args[1]);
        } else if count == 3 {
            Special::lemma_with_three(index, args[0], args[1], args[2]);
        } else if count == 4 {
            Special::lemma_with_four(index, args[0], args[1], args[2], args[3]);
        } else {
            Special::lemma_arg_counts(index);
            Special::lemma_with_five(index, args[0], args[1], args[2], args[3], args[4]);
        }
        assert(Special::of_parts(index, args).args_spec() =~= args);
    }

    /// No variant has more than five arguments.
    pub proof fn lemma_arg_counts(index: int)
        requires
            0 <= index < SPECIAL_COUNT,
        ensures
            ARG_COUNTS@[index] <= 5,
    {
    }

    /// The variant with the given index, its arguments taken from the leading slots of
    /// `args`. The slots that the variant does not use hold zero.
    pub fn from_parts(index: usize, args: &[i16; 5]) -> (s: Self)
        requires
            index < SPECIAL_COUNT,
            forall|k: int| ARG_COUNTS@[index as int] <= k < 5 ==> args@[k] == 0,
        ensures
            s == Special::of_parts(index as int, args@),
            s.index_spec() == index,
            s.args_spec() == args@,
    {
        proof {
            Special::lemma_of_parts(index as int, args@);
        }
        let count = ARG_COUNTS[index];
        if count == 0 {
            Self::with_none(index)
        } else if count == 1 {
            Self::with_one(index, args[0])
        } else if count == 2 {
            Self::with_two(index, args[0], args[1])
        } else if count == 3 {
            Self::with_three(index, args[0], args[1], args[2])
        } else if count == 4 {
            Self::with_four(index, args[0], args[1], args[2], args[3])
        } else {
            proof {
                Special::lemma_arg_counts(index as int);
            }
            Self::with_five(index, args[0], args[1], args[2], args[3], args[4])
        }
    }

    /// The slots of a variant beyond its arguments hold zero, and it has five slots.
    pub proof fn lemma_args_shape(self)
        ensures
            self.index_spec() < SPECIAL_COUNT,
            self.args_spec().len() == 5,
            forall|k: int| ARG_COUNTS@[self.index_spec() as int] <= k < 5 ==> self.args_spec()[k] == 0,
    {
    }

    /// A variant is known by its index and its five slots.
    pub proof fn lemma_parts_injective(self, other: Self)
        requires
            self.index_spec() == other.index_spec(),
            self.args_spec() == other.args_spec(),
        ensures
            self == other,
    {
        assert(self.args_spec()[0] == other.args_spec()[0]);
        assert(self.args_spec()[1] == other.args_spec()[1]);
        assert(self.args_spec()[2] == other.args_spec()[2]);
        assert(self.args_spec()[3] == other.args_spec()[3]);
        assert(self.args_spec()[4] == other.args_spec()[4]);
    }
}

} // verus!
