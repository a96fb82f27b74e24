use lvgl::align::LabelAlign;
use lvgl::align::ObjectAlign;

#[test]
fn object_align_codes_match_toolkit_constants() {
    assert_eq!(ObjectAlign::Center.to_raw(), 0);
    assert_eq!(ObjectAlign::InTopLeft.to_raw(), 1);
    assert_eq!(ObjectAlign::InTopMid.to_raw(), 2);
    assert_eq!(ObjectAlign::InTopRight.to_raw(), 3);
    assert_eq!(ObjectAlign::InBottomLeft.to_raw(), 4);
    assert_eq!(ObjectAlign::InBottomMid.to_raw(), 5);
    assert_eq!(ObjectAlign::InBottomRight.to_raw(), 6);
    assert_eq!(ObjectAlign::InLeftMid.to_raw(), 7);
    assert_eq!(ObjectAlign::InRightMid.to_raw(), 8);
    assert_eq!(ObjectAlign::OutTopLeft.to_raw(), 9);
    assert_eq!(ObjectAlign::OutTopMid.to_raw(), 10);
    assert_eq!(ObjectAlign::OutTopRight.to_raw(), 11);
    assert_eq!(ObjectAlign::OutBottomLeft.to_raw(), 12);
    assert_eq!(ObjectAlign::OutBottomMid.to_raw(), 13);
    assert_eq!(ObjectAlign::OutBottomRight.to_raw(), 14);
    assert_eq!(ObjectAlign::OutLeftTop.to_raw(), 15);
    assert_eq!(ObjectAlign::OutLeftMid.to_raw(), 16);
    assert_eq!(ObjectAlign::OutLeftBottom.to_raw(), 17);
    assert_eq!(ObjectAlign::OutRightTop.to_raw(), 18);
    assert_eq!(ObjectAlign::OutRightMid.to_raw(), 19);
    assert_eq!(ObjectAlign::OutRightBottom.to_raw(), 20);
}

#[test]
fn object_align_codes_are_distinct() {
    let codes = vec![
        ObjectAlign::Center.to_raw(),
        ObjectAlign::InTopLeft.to_raw(),
        ObjectAlign::InTopMid.to_raw(),
        ObjectAlign::InTopRight.to_raw(),
        ObjectAlign::InBottomLeft.to_raw(),
        ObjectAlign::InBottomMid.to_raw(),
        ObjectAlign::InBottomRight.to_raw(),
        ObjectAlign::InLeftMid.to_raw(),
        ObjectAlign::InRightMid.to_raw(),
        ObjectAlign::OutTopLeft.to_raw(),
        ObjectAlign::OutTopMid.to_raw(),
        ObjectAlign::OutTopRight.to_raw(),
        ObjectAlign::OutBottomLeft.to_raw(),
        ObjectAlign::OutBottomMid.to_raw(),
        ObjectAlign::OutBottomRight.to_raw(),
        ObjectAlign::OutLeftTop.to_raw(),
        ObjectAlign::OutLeftMid.to_raw(),
        ObjectAlign::OutLeftBottom.to_raw(),
        ObjectAlign::OutRightTop.to_raw(),
        ObjectAlign::OutRightMid.to_raw(),
        ObjectAlign::OutRightBottom.to_raw(),
    ];
    assert_eq!(codes.len(), 21);
    for i in 0..codes.len() {
        for j in 0..codes.len() {
            if i != j {
                assert_ne!(codes[i], codes[j]);
            }
        }
    }
}

#[test]
fn label_align_codes_match_toolkit_constants() {
    assert_eq!(LabelAlign::Left.to_raw(), 0);
    assert_eq!(LabelAlign::Center.to_raw(), 1);
    assert_eq!(LabelAlign::Right.to_raw(), 2);
    assert_eq!(LabelAlign::Auto.to_raw(), 3);
}

#[test]
fn label_align_codes_are_distinct() {
    let codes = vec![
        LabelAlign::Left.to_raw(),
        LabelAlign::Center.to_raw(),
        LabelAlign::Right.to_raw(),
        LabelAlign::Auto.to_raw(),
    ];
    for i in 0..codes.len() {
        for j in 0..codes.len() {
            if i != j {
                assert_ne!(codes[i], codes[j]);
            }
        }
    }
}
