use rodio_experiments::const_source::buffer::SamplesBuffer;
use rodio_experiments::const_source::list::IntoList;
use rodio_experiments::ConstSource;

#[test]
fn list2() {
    let s1 = SamplesBuffer::<44100, 1, f32>::new(vec![1.0, 2.0, 3.0]);
    let s2 = SamplesBuffer::<44100, 1, f32>::new(vec![4.0, 5.0, 6.0]);

    assert_eq!(
        vec![1., 2., 3., 4., 5., 6.],
        (s1, s2).into_list().collect_samples()
    );
}
