use nodegrid::entity::{Guest, GuestInfo, Player, PlayerInfo};
use nodegrid::grid::NodeID;
use nodegrid::heat::to_absolute;

fn sample_player() -> Player {
    Player { id: 7, name: String::from("ada"), password: String::from("open sesame") }
}

fn sample_guest() -> Guest {
    Guest { id: 1, energy: 5000, pos: (-5, 10), temperature: -20, master_id: 7 }
}

#[test]
fn a_player_record_holds_its_fields() {
    let player = sample_player();
    assert_eq!(player.id, 7);
    assert_eq!(player.name, "ada");
    assert_eq!(player.password, "open sesame");
    assert_eq!(player.clone(), player);
    let other = Player { id: 8, ..player.clone() };
    assert_ne!(other, player);
}

#[test]
fn a_player_info_holds_no_credential() {
    let player = sample_player();
    let info = PlayerInfo { id: player.id, name: player.name.clone() };
    assert_eq!(info, PlayerInfo { id: 7, name: String::from("ada") });
    assert_eq!(info.clone(), info);
    assert!(!format!("{:?}", info).contains("open sesame"));
    assert_eq!(format!("{:?}", info), "PlayerInfo { id: 7, name: \"ada\" }");
}

#[test]
fn a_guest_record_holds_its_fields() {
    let guest = sample_guest();
    let copy = guest;
    assert_eq!(copy, guest);
    assert_eq!(guest.energy, 5000);
    assert_eq!(guest.master_id, sample_player().id);
    assert_eq!(NodeID::from(guest.pos).into_i32(), -327670);
    assert_eq!(to_absolute(guest.temperature), 108);
}

#[test]
fn a_guest_info_holds_no_energy() {
    let guest = sample_guest();
    let info = GuestInfo {
        id: guest.id,
        temperature: i16::from(guest.temperature),
        pos: guest.pos,
        master_id: guest.master_id,
    };
    assert_eq!(info, GuestInfo { id: 1, temperature: -20, pos: (-5, 10), master_id: 7 });
    let copy = info;
    assert_eq!(copy, info);
    assert_eq!(
        format!("{:?}", info),
        "GuestInfo { id: 1, temperature: -20, pos: (-5, 10), master_id: 7 }"
    );
}
